//! Owning and non-owning handles to a context.
//!
//! The native handle is an opaque address-sized value; this crate carries it
//! as a plain machine word, with zero standing for the null handle. The
//! owning [`Context`] is neither copyable nor clonable, so at most one
//! owning handle exists per created context, and destruction — which
//! consumes it — can happen at most once through this crate's surface.
//! [`UnownedContext`] is the freely copyable viewer: it grants every
//! capability except destruction, and its validity is not tracked — it
//! dangles once the owner has destroyed the context, after which every use
//! fails with an explicit error from the driver.

use vstd::prelude::*;

use crate::sealed::Sealed;

verus! {

/// Capability to read the underlying native handle value, for operations
/// that need no destruction rights, such as pushing the context onto a
/// thread's stack.
///
/// The trait is sealed: exactly the owning [`Context`] and the non-owning
/// [`UnownedContext`] implement it, and no third implementer can exist.
pub trait ContextHandle: Sealed {
    /// The native handle value this handle references.
    spec fn spec_inner(&self) -> usize;

    /// The native handle value this handle references.
    fn get_inner(&self) -> (r: usize)
        ensures
            r == self.spec_inner(),
    ;
}

/// Owning handle to a context.
///
/// At most one owning handle exists per live context: the type can be
/// neither copied nor cloned, and only context creation produces one.
/// Destroying the context consumes the handle, so destruction through this
/// crate happens exactly once. The context is destroyed even if other
/// threads still have it on their stacks; their later uses fail with an
/// explicit error.
#[derive(Debug)]
pub struct Context {
    inner: usize,
}

/// Non-owning handle to a context.
///
/// Freely copyable and transferable across threads; it can re-establish
/// currency anywhere but can never destroy the context. It may outlive the
/// context it references.
#[derive(Clone, Copy, Debug, PartialEq, Eq, Structural, Hash)]
pub struct UnownedContext {
    inner: usize,
}

impl Context {
    /// Wrap a native handle value as the owning handle.
    ///
    /// Crate-private: only context creation and the interpretation of the
    /// native creation call's outcome mint an owning handle; a second
    /// owning handle for a live context would forfeit the
    /// exactly-one-destruction guarantee.
    pub(crate) fn from_inner(inner: usize) -> (r: Context)
        ensures
            r.spec_inner() == inner,
    {
        Context { inner }
    }

    /// A non-owning handle to the same context, for sharing it with other
    /// threads. Cheap and side-effect free.
    pub fn get_unowned(&self) -> (r: UnownedContext)
        ensures
            r.spec_inner() == self.spec_inner(),
    {
        UnownedContext { inner: self.inner }
    }
}

impl UnownedContext {
    /// Wrap a native handle value as a non-owning handle.
    pub(crate) fn from_inner(inner: usize) -> (r: UnownedContext)
        ensures
            r.spec_inner() == inner,
    {
        UnownedContext { inner }
    }
}

impl Sealed for Context {

}

impl ContextHandle for Context {
    closed spec fn spec_inner(&self) -> usize {
        self.inner
    }

    fn get_inner(&self) -> (r: usize)
        ensures
            r == self.spec_inner(),
    {
        self.inner
    }
}

impl Sealed for UnownedContext {

}

impl ContextHandle for UnownedContext {
    closed spec fn spec_inner(&self) -> usize {
        self.inner
    }

    fn get_inner(&self) -> (r: usize)
        ensures
            r == self.spec_inner(),
    {
        self.inner
    }
}

} // verus!
