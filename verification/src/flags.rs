//! Bit flags a context is created with.
//!
//! The driver takes the configuration of a new context as a word of bit
//! flags: a scheduling policy (spin, yield, blocking-sync, or automatic),
//! whether mapped page-locked allocations are supported, and whether local
//! memory is kept resized after kernel launches. Only the bits below are
//! meaningful; a well-formed flag set carries no others.

use vstd::prelude::*;

verus! {

/// Instructs the driver to spin actively while waiting for the device.
pub const FLAG_SCHED_SPIN: u32 = 0x01;
/// Instructs the driver to yield the thread while waiting for the device.
pub const FLAG_SCHED_YIELD: u32 = 0x02;
/// Instructs the driver to block the thread on a synchronization primitive
/// while waiting for the device.
pub const FLAG_SCHED_BLOCKING_SYNC: u32 = 0x04;
/// Lets the driver choose between spinning and yielding. The default.
pub const FLAG_SCHED_AUTO: u32 = 0x00;
/// Enables mapped page-locked host allocations.
pub const FLAG_MAP_HOST: u32 = 0x08;
/// Keeps local memory resized to its maximum after each kernel launch.
pub const FLAG_LMEM_RESIZE_TO_MAX: u32 = 0x10;
/// Every meaningful context flag bit.
pub const FLAGS_MASK: u32 = 0x1f;

/// A set of context creation flags.
///
/// Invariant: only bits inside [`FLAGS_MASK`] are set. Every constructor of
/// this type establishes that, including [`ContextFlags::from_bits_truncate`],
/// which discards unknown bits the way the driver's flag query is read.
#[derive(Clone, Copy, Debug, PartialEq, Eq, Structural, Hash)]
pub struct ContextFlags {
    bits: u32,
}

impl ContextFlags {
    /// The raw bit word this flag set stands for.
    pub closed spec fn spec_bits(&self) -> u32 {
        self.bits
    }

    /// Whether the flag set carries meaningful bits only.
    pub open spec fn wf(&self) -> bool {
        self.spec_bits() & FLAGS_MASK == self.spec_bits()
    }

    /// The empty flag set: automatic scheduling, nothing else.
    pub fn empty() -> (r: ContextFlags)
        ensures
            r.spec_bits() == FLAG_SCHED_AUTO,
            r.wf(),
    {
        proof {
            assert(0u32 & 0x1fu32 == 0u32) by (bit_vector);
        }
        ContextFlags { bits: 0 }
    }

    /// The flag set holding exactly the spin-scheduling bit.
    pub fn sched_spin() -> (r: ContextFlags)
        ensures
            r.spec_bits() == FLAG_SCHED_SPIN,
            r.wf(),
    {
        proof {
            assert(0x01u32 & 0x1fu32 == 0x01u32) by (bit_vector);
        }
        ContextFlags { bits: FLAG_SCHED_SPIN }
    }

    /// The flag set holding exactly the yield-scheduling bit.
    pub fn sched_yield() -> (r: ContextFlags)
        ensures
            r.spec_bits() == FLAG_SCHED_YIELD,
            r.wf(),
    {
        proof {
            assert(0x02u32 & 0x1fu32 == 0x02u32) by (bit_vector);
        }
        ContextFlags { bits: FLAG_SCHED_YIELD }
    }

    /// The flag set holding exactly the blocking-sync scheduling bit.
    pub fn sched_blocking_sync() -> (r: ContextFlags)
        ensures
            r.spec_bits() == FLAG_SCHED_BLOCKING_SYNC,
            r.wf(),
    {
        proof {
            assert(0x04u32 & 0x1fu32 == 0x04u32) by (bit_vector);
        }
        ContextFlags { bits: FLAG_SCHED_BLOCKING_SYNC }
    }

    /// The flag set asking for automatic scheduling; equal to the empty set.
    pub fn sched_auto() -> (r: ContextFlags)
        ensures
            r.spec_bits() == FLAG_SCHED_AUTO,
            r.wf(),
    {
        ContextFlags::empty()
    }

    /// The flag set holding exactly the host-mapping bit.
    pub fn map_host() -> (r: ContextFlags)
        ensures
            r.spec_bits() == FLAG_MAP_HOST,
            r.wf(),
    {
        proof {
            assert(0x08u32 & 0x1fu32 == 0x08u32) by (bit_vector);
        }
        ContextFlags { bits: FLAG_MAP_HOST }
    }

    /// The flag set holding exactly the local-memory-retention bit.
    pub fn lmem_resize_to_max() -> (r: ContextFlags)
        ensures
            r.spec_bits() == FLAG_LMEM_RESIZE_TO_MAX,
            r.wf(),
    {
        proof {
            assert(0x10u32 & 0x1fu32 == 0x10u32) by (bit_vector);
        }
        ContextFlags { bits: FLAG_LMEM_RESIZE_TO_MAX }
    }

    /// The raw bit word, as context creation takes it.
    pub fn bits(&self) -> (r: u32)
        ensures
            r == self.spec_bits(),
    {
        self.bits
    }

    /// Keep the meaningful bits of a raw word and discard the rest. This is
    /// how a word read back from the driver's flag query is interpreted.
    pub fn from_bits_truncate(raw: u32) -> (r: ContextFlags)
        ensures
            r.spec_bits() == raw & FLAGS_MASK,
            r.wf(),
    {
        proof {
            assert((raw & 0x1fu32) & 0x1fu32 == raw & 0x1fu32) by (bit_vector);
        }
        ContextFlags { bits: raw & FLAGS_MASK }
    }

    /// Interpret a raw word that must carry meaningful bits only; a word
    /// with any other bit set is rejected.
    pub fn from_bits(raw: u32) -> (r: Option<ContextFlags>)
        ensures
            raw & FLAGS_MASK == raw ==> (r matches Some(f) && f.spec_bits() == raw),
            raw & FLAGS_MASK != raw ==> r is None,
    {
        if raw & FLAGS_MASK == raw {
            Some(ContextFlags { bits: raw })
        } else {
            None
        }
    }

    /// The union of two flag sets.
    pub fn union(&self, other: &ContextFlags) -> (r: ContextFlags)
        ensures
            r.spec_bits() == self.spec_bits() | other.spec_bits(),
            self.wf() && other.wf() ==> r.wf(),
    {
        let a = self.bits;
        let b = other.bits;
        proof {
            assert(a & 0x1fu32 == a && b & 0x1fu32 == b ==> (a | b) & 0x1fu32 == (a | b))
                by (bit_vector);
        }
        ContextFlags { bits: a | b }
    }

    /// Whether every bit of `other` is also set in `self`.
    pub fn contains(&self, other: &ContextFlags) -> (r: bool)
        ensures
            r == (self.spec_bits() & other.spec_bits() == other.spec_bits()),
    {
        self.bits & other.bits == other.bits
    }
}

} // verus!
