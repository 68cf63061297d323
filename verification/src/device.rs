//! Opaque device identifier consumed by context creation.

use vstd::prelude::*;

verus! {

/// Identifier of one accelerator device, as enumerated by the driver.
///
/// This crate treats the identifier as opaque: it is consumed by context
/// creation and produced by the current-context device query, nothing more.
#[derive(Clone, Copy, Debug, PartialEq, Eq, Structural, Hash)]
pub struct Device {
    ordinal: i32,
}

impl Device {
    /// Wrap a device ordinal obtained from device enumeration.
    pub fn new(ordinal: i32) -> (r: Device)
        ensures
            r.spec_ordinal() == ordinal,
    {
        Device { ordinal }
    }

    /// The raw device ordinal.
    pub closed spec fn spec_ordinal(&self) -> i32 {
        self.ordinal
    }

    /// The raw device ordinal, as the driver's calls take it.
    pub fn into_inner(self) -> (r: i32)
        ensures
            r == self.spec_ordinal(),
    {
        self.ordinal
    }
}

} // verus!
