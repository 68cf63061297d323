//! Enumerated configuration surfaces of the current context.
//!
//! Each enumeration mirrors a small set of numeric codes the driver takes
//! and returns. The conversions to and from those codes are total in one
//! direction and checked in the other: a code outside the enumerated set is
//! rejected rather than reinterpreted.

use vstd::prelude::*;

verus! {

/// Preference for dividing hardware shared between L1 cache and shared
/// memory.
///
/// Setting this is advisory: the driver uses the requested configuration if
/// possible but is free to choose a different one. On devices with fixed
/// cache sizes the query always reports `PreferNone`.
#[derive(Clone, Copy, Debug, PartialEq, Eq, Structural, Hash)]
pub enum CacheConfig {
    /// No preference between shared memory and L1 cache. The default.
    PreferNone,
    /// Prefer larger shared memory and smaller L1 cache.
    PreferShared,
    /// Prefer larger L1 cache and smaller shared memory.
    PreferL1,
    /// Prefer equal-sized L1 cache and shared memory.
    PreferEqual,
}

impl CacheConfig {
    /// The numeric code the driver uses for this preference.
    pub open spec fn spec_raw(&self) -> u32 {
        match self {
            CacheConfig::PreferNone => 0,
            CacheConfig::PreferShared => 1,
            CacheConfig::PreferL1 => 2,
            CacheConfig::PreferEqual => 3,
        }
    }

    /// The numeric code the driver uses for this preference.
    pub fn to_raw(&self) -> (r: u32)
        ensures
            r == self.spec_raw(),
    {
        match self {
            CacheConfig::PreferNone => 0,
            CacheConfig::PreferShared => 1,
            CacheConfig::PreferL1 => 2,
            CacheConfig::PreferEqual => 3,
        }
    }

    /// Interpret a numeric code from the driver; a code outside the
    /// enumerated set is rejected.
    pub fn from_raw(raw: u32) -> (r: Option<CacheConfig>)
        ensures
            raw <= 3 ==> (r matches Some(c) && c.spec_raw() == raw),
            raw > 3 ==> r is None,
    {
        if raw == 0 {
            Some(CacheConfig::PreferNone)
        } else if raw == 1 {
            Some(CacheConfig::PreferShared)
        } else if raw == 2 {
            Some(CacheConfig::PreferL1)
        } else if raw == 3 {
            Some(CacheConfig::PreferEqual)
        } else {
            None
        }
    }
}

/// Shared-memory bank width configuration.
///
/// Setting this is advisory in the same way as [`CacheConfig`].
#[derive(Clone, Copy, Debug, PartialEq, Eq, Structural, Hash)]
pub enum SharedMemoryConfig {
    /// The device's default bank width.
    DefaultBankSize,
    /// Four-byte shared-memory banks.
    FourByteBankSize,
    /// Eight-byte shared-memory banks.
    EightByteBankSize,
}

impl SharedMemoryConfig {
    /// The numeric code the driver uses for this configuration.
    pub open spec fn spec_raw(&self) -> u32 {
        match self {
            SharedMemoryConfig::DefaultBankSize => 0,
            SharedMemoryConfig::FourByteBankSize => 1,
            SharedMemoryConfig::EightByteBankSize => 2,
        }
    }

    /// The numeric code the driver uses for this configuration.
    pub fn to_raw(&self) -> (r: u32)
        ensures
            r == self.spec_raw(),
    {
        match self {
            SharedMemoryConfig::DefaultBankSize => 0,
            SharedMemoryConfig::FourByteBankSize => 1,
            SharedMemoryConfig::EightByteBankSize => 2,
        }
    }

    /// Interpret a numeric code from the driver; a code outside the
    /// enumerated set is rejected.
    pub fn from_raw(raw: u32) -> (r: Option<SharedMemoryConfig>)
        ensures
            raw <= 2 ==> (r matches Some(c) && c.spec_raw() == raw),
            raw > 2 ==> r is None,
    {
        if raw == 0 {
            Some(SharedMemoryConfig::DefaultBankSize)
        } else if raw == 1 {
            Some(SharedMemoryConfig::FourByteBankSize)
        } else if raw == 2 {
            Some(SharedMemoryConfig::EightByteBankSize)
        } else {
            None
        }
    }
}

/// The tunable per-context resource limits.
///
/// A set is a request the driver may clamp to hardware requirements, and
/// some limits become immutable once certain kernel activity has occurred;
/// such a set fails with [`crate::error::CudaError::UnsupportedLimit`].
#[derive(Clone, Copy, Debug, PartialEq, Eq, Structural, Hash)]
pub enum ResourceLimit {
    /// The size in bytes of each device thread's stack.
    StackSize,
    /// The size in bytes of the FIFO used by the device-side `printf`.
    PrintfFifoSize,
    /// The size in bytes of the heap used by device-side `malloc` and
    /// `free`.
    MallocHeapSize,
    /// The maximum grid nesting depth at which a thread can safely
    /// synchronize on child grid launches.
    DeviceRuntimeSynchronizeDepth,
    /// The maximum number of outstanding device runtime launches.
    DeviceRuntimePendingLaunchCount,
    /// The L2 cache fetch granularity.
    MaxL2FetchGranularity,
}

impl ResourceLimit {
    /// The numeric code the driver uses for this limit.
    pub open spec fn spec_raw(&self) -> u32 {
        match self {
            ResourceLimit::StackSize => 0,
            ResourceLimit::PrintfFifoSize => 1,
            ResourceLimit::MallocHeapSize => 2,
            ResourceLimit::DeviceRuntimeSynchronizeDepth => 3,
            ResourceLimit::DeviceRuntimePendingLaunchCount => 4,
            ResourceLimit::MaxL2FetchGranularity => 5,
        }
    }

    /// The numeric code the driver uses for this limit.
    pub fn to_raw(&self) -> (r: u32)
        ensures
            r == self.spec_raw(),
    {
        match self {
            ResourceLimit::StackSize => 0,
            ResourceLimit::PrintfFifoSize => 1,
            ResourceLimit::MallocHeapSize => 2,
            ResourceLimit::DeviceRuntimeSynchronizeDepth => 3,
            ResourceLimit::DeviceRuntimePendingLaunchCount => 4,
            ResourceLimit::MaxL2FetchGranularity => 5,
        }
    }

    /// Interpret a numeric code from the driver; a code outside the
    /// enumerated set is rejected.
    pub fn from_raw(raw: u32) -> (r: Option<ResourceLimit>)
        ensures
            raw <= 5 ==> (r matches Some(c) && c.spec_raw() == raw),
            raw > 5 ==> r is None,
    {
        if raw == 0 {
            Some(ResourceLimit::StackSize)
        } else if raw == 1 {
            Some(ResourceLimit::PrintfFifoSize)
        } else if raw == 2 {
            Some(ResourceLimit::MallocHeapSize)
        } else if raw == 3 {
            Some(ResourceLimit::DeviceRuntimeSynchronizeDepth)
        } else if raw == 4 {
            Some(ResourceLimit::DeviceRuntimePendingLaunchCount)
        } else if raw == 5 {
            Some(ResourceLimit::MaxL2FetchGranularity)
        } else {
            None
        }
    }
}

/// A device's range of schedulable stream priorities.
///
/// By convention a lower numeric value means a higher priority, so the
/// meaningful range is `[greatest, least]` with `greatest <= least`
/// numerically. A device without stream priority support reports zero for
/// both bounds.
#[derive(Clone, Copy, Debug, PartialEq, Eq, Structural, Hash)]
pub struct StreamPriorityRange {
    /// The least stream priority: the numerically largest value.
    pub least: i32,
    /// The greatest stream priority: the numerically smallest value.
    pub greatest: i32,
}

} // verus!
