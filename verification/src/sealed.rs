//! Seal for the context-handle capability trait.
//!
//! The module is private to the crate, so no outside type can name
//! [`Sealed`]: the set of context-handle implementers is closed to exactly
//! the owning and the non-owning handle.

use vstd::prelude::*;

verus! {

/// Marker supertrait that keeps the context-handle trait closed.
pub trait Sealed {

}

} // verus!
