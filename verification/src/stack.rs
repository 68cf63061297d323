//! One thread's context stack.
//!
//! The driver keeps one such stack per thread; the entry on top is the
//! thread's current context. This type states that stack's behavior
//! exactly: the spec functions below define what each operation does to the
//! sequence of entries, the methods are verified against them, and the laws
//! in [`crate::laws`] are proved from them. An entry is a plain native
//! handle value.
//!
//! The operations that install a handle — [`ContextStack::push`] and
//! [`ContextStack::set_current`] — consult the driver state: the driver
//! validates every handle it is given, so installing one whose context was
//! already destroyed fails with the invalid-context error and leaves the
//! stack unchanged. The operations that only hand an entry out — `pop` and
//! `current` — do no such check, again as the driver behaves: an entry can
//! outlive its context on the stack, and dangles from then on.

use vstd::prelude::*;

use crate::driver::DriverModel;
use crate::error::CudaError;
use crate::handle::ContextHandle;
use crate::handle::UnownedContext;

verus! {

/// The stack after a handle was pushed.
pub open spec fn spec_push(s: Seq<usize>, h: usize) -> Seq<usize> {
    s.push(h)
}

/// The stack after its top entry was popped.
pub open spec fn spec_pop(s: Seq<usize>) -> Seq<usize>
    recommends
        s.len() > 0,
{
    s.drop_last()
}

/// The thread's current context: the top entry, if any.
pub open spec fn spec_current(s: Seq<usize>) -> Option<usize> {
    if s.len() == 0 {
        None
    } else {
        Some(s.last())
    }
}

/// The stack after a handle was made current: a push when the stack was
/// empty, otherwise a replacement of the top entry.
pub open spec fn spec_set_current(s: Seq<usize>, h: usize) -> Seq<usize> {
    if s.len() == 0 {
        seq![h]
    } else {
        s.update(s.len() - 1, h)
    }
}

/// The thread-local context stack of one thread.
///
/// Viewed as the sequence of native handle values it holds, bottom first.
pub struct ContextStack {
    entries: Vec<usize>,
}

impl View for ContextStack {
    type V = Seq<usize>;

    closed spec fn view(&self) -> Seq<usize> {
        self.entries@
    }
}

impl ContextStack {
    /// The empty stack a thread starts with: no context is current.
    pub fn new() -> (r: ContextStack)
        ensures
            r@ == Seq::<usize>::empty(),
    {
        ContextStack { entries: Vec::new() }
    }

    /// How many entries the stack holds.
    pub fn depth(&self) -> (r: usize)
        ensures
            r == self@.len(),
    {
        self.entries.len()
    }

    /// Push the given context's handle, making that context current for
    /// this thread. Either kind of handle is accepted. The driver
    /// validates the handle: pushing one whose context was destroyed fails
    /// with the invalid-context error, and the stack is unchanged.
    pub fn push<C: ContextHandle>(&mut self, driver: &DriverModel, ctx: &C) -> (r: Result<
        (),
        CudaError,
    >)
        requires
            driver.wf(),
        ensures
            driver.spec_is_live(ctx.spec_inner()) ==> r is Ok && final(self)@ == spec_push(
                old(self)@,
                ctx.spec_inner(),
            ),
            !driver.spec_is_live(ctx.spec_inner()) ==> r == Result::<(), CudaError>::Err(
                CudaError::InvalidContext,
            ) && final(self)@ == old(self)@,
    {
        if !driver.is_live(ctx.get_inner()) {
            return Err(CudaError::InvalidContext);
        }
        self.entries.push(ctx.get_inner());
        Ok(())
    }

    /// Remove the top entry and return it as a non-owning handle, so the
    /// context can be made current again, perhaps on another thread. Fails
    /// if the stack is empty.
    pub fn pop(&mut self) -> (r: Result<UnownedContext, CudaError>)
        ensures
            old(self)@.len() == 0 ==> r == Result::<UnownedContext, CudaError>::Err(
                CudaError::NoContextCurrent,
            ) && final(self)@ == old(self)@,
            old(self)@.len() > 0 ==> (r matches Ok(u) && u.spec_inner() == old(self)@.last())
                && final(self)@ == spec_pop(old(self)@),
    {
        match self.entries.pop() {
            Some(raw) => {
                proof {
                    assert(final(self)@ =~= spec_pop(old(self)@));
                }
                Ok(UnownedContext::from_inner(raw))
            },
            None => Err(CudaError::NoContextCurrent),
        }
    }

    /// The top entry as a non-owning handle, without removing it. Fails if
    /// the stack is empty.
    pub fn current(&self) -> (r: Result<UnownedContext, CudaError>)
        ensures
            self@.len() == 0 ==> r == Result::<UnownedContext, CudaError>::Err(
                CudaError::NoContextCurrent,
            ),
            self@.len() > 0 ==> (r matches Ok(u) && Some(u.spec_inner()) == spec_current(self@)),
    {
        let n = self.entries.len();
        if n == 0 {
            Err(CudaError::NoContextCurrent)
        } else {
            Ok(UnownedContext::from_inner(self.entries[n - 1]))
        }
    }

    /// Overwrite the thread's current context: push the handle if the
    /// stack is empty, else replace the top entry. On success the stack's
    /// depth grows from zero to one or stays unchanged — distinct from
    /// `push`, which always adds an entry. The driver validates the
    /// handle: installing one whose context was destroyed fails with the
    /// invalid-context error, and the stack is unchanged.
    pub fn set_current<C: ContextHandle>(&mut self, driver: &DriverModel, ctx: &C) -> (r: Result<
        (),
        CudaError,
    >)
        requires
            driver.wf(),
        ensures
            driver.spec_is_live(ctx.spec_inner()) ==> r is Ok && final(self)@ == spec_set_current(
                old(self)@,
                ctx.spec_inner(),
            ),
            !driver.spec_is_live(ctx.spec_inner()) ==> r == Result::<(), CudaError>::Err(
                CudaError::InvalidContext,
            ) && final(self)@ == old(self)@,
    {
        if !driver.is_live(ctx.get_inner()) {
            return Err(CudaError::InvalidContext);
        }
        let n = self.entries.len();
        if n == 0 {
            self.entries.push(ctx.get_inner());
            proof {
                assert(final(self)@ =~= spec_set_current(old(self)@, ctx.spec_inner()));
            }
        } else {
            self.entries[n - 1] = ctx.get_inner();
        }
        Ok(())
    }
}

} // verus!
