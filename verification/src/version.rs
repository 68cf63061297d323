//! The API version a context was created with.

use vstd::prelude::*;

verus! {

/// Composite API version number reported for a context, such as `3020` for
/// version 3.2 or `9010` for version 9.1.
///
/// A value object: it carries no behavior beyond equality, ordering and the
/// major/minor decomposition.
#[derive(Clone, Copy, Debug, PartialEq, Eq, Structural, Hash)]
pub struct CudaApiVersion {
    version: u32,
}

impl CudaApiVersion {
    /// Wrap the composite version number the driver reported.
    pub fn from_raw(version: u32) -> (r: CudaApiVersion)
        ensures
            r.spec_version() == version,
    {
        CudaApiVersion { version }
    }

    /// The composite version number as reported by the driver.
    pub closed spec fn spec_version(&self) -> u32 {
        self.version
    }

    /// The composite version number as reported by the driver.
    pub fn version(&self) -> (r: u32)
        ensures
            r == self.spec_version(),
    {
        self.version
    }

    /// The major version number, such as `9` in version 9.1.
    pub fn major(&self) -> (r: u32)
        ensures
            r == self.spec_version() / 1000,
    {
        self.version / 1000
    }

    /// The minor version number, such as `1` in version 9.1.
    pub fn minor(&self) -> (r: u32)
        ensures
            r == (self.spec_version() % 1000) / 10,
    {
        (self.version % 1000) / 10
    }
}

/// The composite number determines the whole value: two versions that
/// report the same number are equal.
pub proof fn lemma_version_determines_value(a: CudaApiVersion, b: CudaApiVersion)
    requires
        a.spec_version() == b.spec_version(),
    ensures
        a == b,
{
}

} // verus!
