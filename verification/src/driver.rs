//! The driver's context bookkeeping as an explicit state machine.
//!
//! The native driver owns the real state behind this crate's surface: which
//! contexts are alive, what device, flags and configuration each carries,
//! and what it answers to every call. That state machine is written out
//! here as [`DriverModel`], and every operation of the crate's surface is
//! verified against it: creation registers a fresh context and pushes it,
//! destruction removes exactly one, and the current-context query and
//! configuration surface — [`CurrentContext`] — answers from the record of
//! whichever context sits on top of the calling thread's stack, or fails
//! with an explicit error when the stack is empty or the top entry
//! references a context that is no longer alive (a dangling handle).
//!
//! The model tracks context identity by the native handle value alone,
//! exactly as the driver does; it does not and cannot make cross-thread
//! destruction memory-safe. The caller holding the owning handle must make
//! sure no other thread still works through derived handles when the owner
//! destroys the context.

use vstd::prelude::*;

use crate::config::CacheConfig;
use crate::config::ResourceLimit;
use crate::config::SharedMemoryConfig;
use crate::config::StreamPriorityRange;
use crate::device::Device;
use crate::error::CudaError;
use crate::error::STATUS_OUT_OF_MEMORY;
use crate::flags::ContextFlags;
use crate::handle::Context;
use crate::handle::ContextHandle;
use crate::handle::UnownedContext;
use crate::stack::ContextStack;
use crate::stack::spec_current;
use crate::stack::spec_push;
use crate::stack::spec_set_current;
use crate::version::CudaApiVersion;

verus! {

/// Everything the driver keeps per live context.
#[derive(Clone, Copy, Debug, PartialEq, Eq, Structural)]
pub struct ContextRecord {
    /// The native handle value identifying the context.
    pub raw: usize,
    /// The device the context was created for.
    pub device: Device,
    /// The creation flags, meaningful bits only.
    pub flags: ContextFlags,
    /// The API version the context was created with.
    pub api_version: u32,
    /// The preferred cache configuration.
    pub cache_config: CacheConfig,
    /// The shared-memory bank configuration.
    pub shared_memory_config: SharedMemoryConfig,
    /// The per-device-thread stack size limit, in bytes.
    pub stack_size: usize,
    /// The device-side `printf` FIFO size limit, in bytes.
    pub printf_fifo_size: usize,
    /// The device-side heap size limit, in bytes.
    pub malloc_heap_size: usize,
    /// The device-runtime synchronization depth limit.
    pub synchronize_depth: usize,
    /// The device-runtime pending launch count limit.
    pub pending_launch_count: usize,
    /// The L2 fetch granularity limit.
    pub l2_fetch_granularity: usize,
}

/// The value a record holds for one resource limit.
pub open spec fn spec_limit(rec: ContextRecord, res: ResourceLimit) -> usize {
    match res {
        ResourceLimit::StackSize => rec.stack_size,
        ResourceLimit::PrintfFifoSize => rec.printf_fifo_size,
        ResourceLimit::MallocHeapSize => rec.malloc_heap_size,
        ResourceLimit::DeviceRuntimeSynchronizeDepth => rec.synchronize_depth,
        ResourceLimit::DeviceRuntimePendingLaunchCount => rec.pending_launch_count,
        ResourceLimit::MaxL2FetchGranularity => rec.l2_fetch_granularity,
    }
}

/// The record a fresh context starts from. Every limit starts at zero: the
/// real driver starts from device-dependent values, which the model does
/// not know; what it guarantees is only how the values move afterwards.
pub open spec fn spec_fresh_record(
    raw: usize,
    device: Device,
    flags: ContextFlags,
    api_version: u32,
) -> ContextRecord {
    ContextRecord {
        raw,
        device,
        flags,
        api_version,
        cache_config: CacheConfig::PreferNone,
        shared_memory_config: SharedMemoryConfig::DefaultBankSize,
        stack_size: 0,
        printf_fifo_size: 0,
        malloc_heap_size: 0,
        synchronize_depth: 0,
        pending_launch_count: 0,
        l2_fetch_granularity: 0,
    }
}

/// The driver's context bookkeeping.
///
/// Holds the records of the live contexts, the composite API version it
/// stamps on new contexts, and the device's stream priority bounds. Handle
/// values are allocated in creation order and never reused, which is how
/// the model separates a live context from a dangling handle.
pub struct DriverModel {
    next_raw: usize,
    contexts: Vec<ContextRecord>,
    api_version: u32,
    least_priority: i32,
    greatest_priority: i32,
}

impl DriverModel {
    /// Whether a native handle value references a live context.
    pub closed spec fn spec_is_live(&self, raw: usize) -> bool {
        exists|i: int| 0 <= i < self.contexts@.len() && self.contexts@[i].raw == raw
    }

    /// The index of the record for a handle value.
    closed spec fn spec_index_of(&self, raw: usize) -> int {
        choose|i: int| 0 <= i < self.contexts@.len() && self.contexts@[i].raw == raw
    }

    /// The record of the live context a handle value references.
    pub closed spec fn spec_record(&self, raw: usize) -> ContextRecord
        recommends
            self.spec_is_live(raw),
    {
        self.contexts@[self.spec_index_of(raw)]
    }

    /// The handle value the next created context will receive.
    pub closed spec fn spec_next_raw(&self) -> usize {
        self.next_raw
    }

    /// The composite API version stamped on new contexts.
    pub closed spec fn spec_api_version(&self) -> u32 {
        self.api_version
    }

    /// The numerically largest schedulable stream priority.
    pub closed spec fn spec_least_priority(&self) -> i32 {
        self.least_priority
    }

    /// The numerically smallest schedulable stream priority.
    pub closed spec fn spec_greatest_priority(&self) -> i32 {
        self.greatest_priority
    }

    /// Well-formedness: handle values are nonzero, below the allocation
    /// cursor and pairwise distinct; every stored flag set is meaningful;
    /// and the priority bounds are ordered as the platform guarantees.
    pub closed spec fn wf(&self) -> bool {
        &&& self.next_raw >= 1
        &&& forall|i: int|
            0 <= i < self.contexts@.len() ==> (#[trigger] self.contexts@[i]).raw != 0
                && self.contexts@[i].raw < self.next_raw && self.contexts@[i].flags.wf()
        &&& forall|i: int, j: int|
            0 <= i < j < self.contexts@.len() ==> (#[trigger] self.contexts@[i]).raw != (
            #[trigger] self.contexts@[j]).raw
        &&& self.greatest_priority <= self.least_priority
    }

    /// The record at a valid index is the record of its handle value.
    proof fn lemma_record_at(&self, i: int)
        requires
            self.wf(),
            0 <= i < self.contexts@.len(),
        ensures
            self.spec_is_live(self.contexts@[i].raw),
            self.spec_record(self.contexts@[i].raw) == self.contexts@[i],
            self.spec_index_of(self.contexts@[i].raw) == i,
    {
        let raw = self.contexts@[i].raw;
        assert(self.spec_is_live(raw));
        let j = self.spec_index_of(raw);
        assert(0 <= j < self.contexts@.len() && self.contexts@[j].raw == raw);
        if i < j {
            assert(self.contexts@[i].raw != self.contexts@[j].raw);
        } else if j < i {
            assert(self.contexts@[j].raw != self.contexts@[i].raw);
        }
    }

    /// A fresh driver state: no context is alive yet.
    ///
    /// `api_version` is the composite version the driver stamps on new
    /// contexts; `least` and `greatest` are the device's stream priority
    /// bounds, numerically ordered `greatest <= least` (both zero on a
    /// device without stream priority support).
    pub fn new(api_version: u32, least: i32, greatest: i32) -> (r: DriverModel)
        requires
            greatest <= least,
        ensures
            r.wf(),
            r.spec_api_version() == api_version,
            r.spec_least_priority() == least,
            r.spec_greatest_priority() == greatest,
            r.spec_next_raw() == 1,
            forall|h: usize| !r.spec_is_live(h),
    {
        DriverModel {
            next_raw: 1,
            contexts: Vec::new(),
            api_version,
            least_priority: least,
            greatest_priority: greatest,
        }
    }

    /// Whether a native handle value references a live context: this is
    /// the validity tracking the driver performs on every handle it is
    /// given.
    pub fn is_live(&self, raw: usize) -> (r: bool)
        requires
            self.wf(),
        ensures
            r == self.spec_is_live(raw),
    {
        match self.find_index(raw) {
            Some(_) => true,
            None => false,
        }
    }

    /// Look up the record index of a handle value, or `None` when no live
    /// context carries it.
    fn find_index(&self, raw: usize) -> (r: Option<usize>)
        requires
            self.wf(),
        ensures
            match r {
                Some(i) => self.spec_is_live(raw) && i < self.contexts@.len()
                    && self.contexts@[i as int].raw == raw && self.spec_record(raw)
                    == self.contexts@[i as int],
                None => !self.spec_is_live(raw),
            },
    {
        let n = self.contexts.len();
        let mut i: usize = 0;
        while i < n
            invariant
                n == self.contexts@.len(),
                i <= n,
                self.wf(),
                forall|k: int| 0 <= k < i ==> (#[trigger] self.contexts@[k]).raw != raw,
            decreases n - i,
        {
            if self.contexts[i].raw == raw {
                proof {
                    self.lemma_record_at(i as int);
                }
                return Some(i);
            }
            i = i + 1;
        }
        None
    }
}

/// The context a current-context operation targets: the top of the calling
/// thread's stack. An empty stack yields the "no context current" error; a
/// top entry whose context is no longer alive — a dangling handle — yields
/// the invalid-context error the driver reports for it.
pub open spec fn spec_current_target(d: DriverModel, s: Seq<usize>) -> Result<usize, CudaError> {
    match spec_current(s) {
        Option::None => Err(CudaError::NoContextCurrent),
        Option::Some(raw) => if d.spec_is_live(raw) {
            Ok(raw)
        } else {
            Err(CudaError::InvalidContext)
        },
    }
}

/// What the API version query answers for a handle value: the version the
/// context was created with while it is alive, the invalid-context error
/// once it was destroyed.
pub open spec fn spec_api_version_query(d: DriverModel, raw: usize) -> Result<u32, CudaError> {
    if d.spec_is_live(raw) {
        Ok(d.spec_record(raw).api_version)
    } else {
        Err(CudaError::InvalidContext)
    }
}

impl Context {
    /// Create a context for the given device and make it current on the
    /// calling thread.
    ///
    /// The driver only offers creation combined with a push, so the new
    /// context is pushed onto `stack` as a side effect; callers who want
    /// explicit stack control pop it right away. The returned value is the
    /// one owning handle of the new context: destruction goes through it
    /// and through nothing else.
    pub fn create_and_push(
        driver: &mut DriverModel,
        stack: &mut ContextStack,
        flags: ContextFlags,
        device: Device,
    ) -> (r: Result<Context, CudaError>)
        requires
            old(driver).wf(),
            flags.wf(),
        ensures
            final(driver).wf(),
            old(driver).spec_next_raw() < usize::MAX ==> ({
                &&& r matches Ok(c)
                &&& c.spec_inner() == old(driver).spec_next_raw()
                &&& !old(driver).spec_is_live(c.spec_inner())
                &&& final(driver).spec_is_live(c.spec_inner())
                &&& final(driver).spec_record(c.spec_inner()) == spec_fresh_record(
                    c.spec_inner(),
                    device,
                    flags,
                    old(driver).spec_api_version(),
                )
                &&& final(stack)@ == spec_push(old(stack)@, c.spec_inner())
                &&& final(driver).spec_next_raw() == old(driver).spec_next_raw() + 1
            }),
            old(driver).spec_next_raw() == usize::MAX ==> r == Result::<Context, CudaError>::Err(
                CudaError::Native(STATUS_OUT_OF_MEMORY),
            ) && *final(driver) == *old(driver) && final(stack)@ == old(stack)@,
            forall|h: usize|
                h != old(driver).spec_next_raw() ==> final(driver).spec_is_live(h) == old(driver).spec_is_live(h),
            forall|h: usize|
                h != old(driver).spec_next_raw() && old(driver).spec_is_live(h) ==> final(driver).spec_record(h) == old(driver).spec_record(h),
            final(driver).spec_api_version() == old(driver).spec_api_version(),
            final(driver).spec_least_priority() == old(driver).spec_least_priority(),
            final(driver).spec_greatest_priority() == old(driver).spec_greatest_priority(),
    {
        if driver.next_raw == usize::MAX {
            return Err(CudaError::from_code(STATUS_OUT_OF_MEMORY));
        }
        let ghost pre = *driver;
        let raw = driver.next_raw;
        driver.next_raw = raw + 1;
        let rec = ContextRecord {
            raw,
            device,
            flags,
            api_version: driver.api_version,
            cache_config: CacheConfig::PreferNone,
            shared_memory_config: SharedMemoryConfig::DefaultBankSize,
            stack_size: 0,
            printf_fifo_size: 0,
            malloc_heap_size: 0,
            synchronize_depth: 0,
            pending_launch_count: 0,
            l2_fetch_granularity: 0,
        };
        driver.contexts.push(rec);
        proof {
            let s = pre.contexts@;
            let t = driver.contexts@;
            assert(t == s.push(rec));
            assert(t[s.len() as int] == rec);
            assert forall|k: int| 0 <= k < s.len() implies t[k] == s[k] by {}
            assert(driver.wf());
            driver.lemma_record_at(s.len() as int);
            assert(!pre.spec_is_live(raw));
            assert forall|h: usize| h != raw implies driver.spec_is_live(h) == pre.spec_is_live(
                h,
            ) by {
                if pre.spec_is_live(h) {
                    let j = pre.spec_index_of(h);
                    assert(0 <= j < s.len() && s[j].raw == h);
                    assert(t[j].raw == h);
                }
                if driver.spec_is_live(h) {
                    let j = driver.spec_index_of(h);
                    assert(0 <= j < t.len() && t[j].raw == h);
                    assert(j < s.len() && s[j].raw == h);
                }
            }
            assert forall|h: usize| h != raw && pre.spec_is_live(h) implies driver.spec_record(h)
                == pre.spec_record(h) by {
                let j = pre.spec_index_of(h);
                assert(0 <= j < s.len() && s[j].raw == h);
                pre.lemma_record_at(j);
                driver.lemma_record_at(j);
            }
        }
        let ctx = Context::from_inner(raw);
        let _ = stack.push(&*driver, &ctx);
        Ok(ctx)
    }

    /// Destroy the context this owning handle references, consuming the
    /// handle: the single destruction point of the whole model.
    ///
    /// The context is destroyed even if it is current on other threads;
    /// entries referencing it dangle, and later operations through them
    /// fail with an explicit error. If the context is current on the
    /// calling thread, its top-of-stack entry is removed as the driver
    /// does; entries below the top, and other threads' entries, stay. The
    /// caller must make sure no other thread is concurrently working
    /// through handles derived from this one — the platform offers nothing
    /// this model could check that with.
    pub fn destroy(self, driver: &mut DriverModel, stack: &mut ContextStack) -> (r: Result<
        (),
        CudaError,
    >)
        requires
            old(driver).wf(),
        ensures
            final(driver).wf(),
            old(driver).spec_is_live(self.spec_inner()) ==> ({
                &&& r is Ok
                &&& !final(driver).spec_is_live(self.spec_inner())
                &&& (if spec_current(old(stack)@) == Option::Some(self.spec_inner()) {
                    final(stack)@ == crate::stack::spec_pop(old(stack)@)
                } else {
                    final(stack)@ == old(stack)@
                })
            }),
            !old(driver).spec_is_live(self.spec_inner()) ==> r == Result::<(), CudaError>::Err(
                CudaError::InvalidContext,
            ) && *final(driver) == *old(driver) && final(stack)@ == old(stack)@,
            forall|h: usize|
                h != self.spec_inner() ==> final(driver).spec_is_live(h) == old(driver).spec_is_live(h),
            forall|h: usize|
                h != self.spec_inner() && old(driver).spec_is_live(h) ==> final(driver).spec_record(h) == old(driver).spec_record(h),
            final(driver).spec_next_raw() == old(driver).spec_next_raw(),
            final(driver).spec_api_version() == old(driver).spec_api_version(),
            final(driver).spec_least_priority() == old(driver).spec_least_priority(),
            final(driver).spec_greatest_priority() == old(driver).spec_greatest_priority(),
    {
        let raw = self.get_inner();
        match driver.find_index(raw) {
            None => Err(CudaError::InvalidContext),
            Some(i) => {
                let ghost pre = *driver;
                driver.contexts.remove(i);
                proof {
                    let s = pre.contexts@;
                    let t = driver.contexts@;
                    s.remove_ensures(i as int);
                    assert(t == s.remove(i as int));
                    assert forall|a: int, b: int| 0 <= a < b < t.len() implies t[a].raw
                        != t[b].raw by {
                        let a0 = if a < i as int { a } else { a + 1 };
                        let b0 = if b < i as int { b } else { b + 1 };
                        assert(t[a] == s[a0] && t[b] == s[b0]);
                    }
                    assert(driver.wf());
                    assert forall|h: usize| h != raw implies driver.spec_is_live(h)
                        == pre.spec_is_live(h) by {
                        if pre.spec_is_live(h) {
                            let j = pre.spec_index_of(h);
                            assert(0 <= j < s.len() && s[j].raw == h);
                            let j1 = if j < i as int { j } else { j - 1 };
                            assert(j != i as int);
                            assert(t[j1] == s[j]);
                            assert(driver.spec_is_live(h));
                        }
                        if driver.spec_is_live(h) {
                            let j = driver.spec_index_of(h);
                            assert(0 <= j < t.len() && t[j].raw == h);
                            let j0 = if j < i as int { j } else { j + 1 };
                            assert(t[j] == s[j0]);
                            assert(pre.spec_is_live(h));
                        }
                    }
                    assert forall|h: usize| h != raw && pre.spec_is_live(h) implies
                        driver.spec_record(h) == pre.spec_record(h) by {
                        let j = pre.spec_index_of(h);
                        assert(0 <= j < s.len() && s[j].raw == h);
                        pre.lemma_record_at(j);
                        let j1 = if j < i as int { j } else { j - 1 };
                        assert(j != i as int);
                        assert(t[j1] == s[j]);
                        driver.lemma_record_at(j1);
                    }
                    assert(!driver.spec_is_live(raw)) by {
                        if driver.spec_is_live(raw) {
                            let j = driver.spec_index_of(raw);
                            assert(0 <= j < t.len() && t[j].raw == raw);
                            let j0 = if j < i as int { j } else { j + 1 };
                            assert(t[j] == s[j0]);
                            assert(j0 != i as int);
                            pre.lemma_record_at(j0);
                            pre.lemma_record_at(i as int);
                        }
                    }
                }
                let top = stack.current();
                match top {
                    Ok(u) => {
                        if u.get_inner() == raw {
                            let _ = stack.pop();
                        }
                    },
                    Err(_) => {},
                }
                Ok(())
            },
        }
    }

    /// The API version the context was created with — not necessarily the
    /// newest the driver supports. Read-only; answers the invalid-context
    /// error once the context was destroyed.
    pub fn get_api_version(&self, driver: &DriverModel) -> (r: Result<CudaApiVersion, CudaError>)
        requires
            driver.wf(),
        ensures
            spec_api_version_query(*driver, self.spec_inner()) matches Ok(n) ==> (r matches Ok(v)
                && v.spec_version() == n),
            spec_api_version_query(*driver, self.spec_inner()) matches Err(e) ==> r
                == Result::<CudaApiVersion, CudaError>::Err(e),
    {
        match driver.find_index(self.get_inner()) {
            Some(i) => Ok(CudaApiVersion::from_raw(driver.contexts[i].api_version)),
            None => Err(CudaError::InvalidContext),
        }
    }
}

impl UnownedContext {
    /// The API version the context was created with; identical to the
    /// owning handle's query and legal from any thread. Answers the
    /// invalid-context error once the owner destroyed the context.
    pub fn get_api_version(&self, driver: &DriverModel) -> (r: Result<CudaApiVersion, CudaError>)
        requires
            driver.wf(),
        ensures
            spec_api_version_query(*driver, self.spec_inner()) matches Ok(n) ==> (r matches Ok(v)
                && v.spec_version() == n),
            spec_api_version_query(*driver, self.spec_inner()) matches Err(e) ==> r
                == Result::<CudaApiVersion, CudaError>::Err(e),
    {
        match driver.find_index(self.get_inner()) {
            Some(i) => Ok(CudaApiVersion::from_raw(driver.contexts[i].api_version)),
            None => Err(CudaError::InvalidContext),
        }
    }
}

/// A record with another cache configuration, all else unchanged.
pub open spec fn spec_with_cache(rec: ContextRecord, cfg: CacheConfig) -> ContextRecord {
    ContextRecord { cache_config: cfg, ..rec }
}

/// A record with another shared-memory bank configuration, all else
/// unchanged.
pub open spec fn spec_with_shared(rec: ContextRecord, cfg: SharedMemoryConfig) -> ContextRecord {
    ContextRecord { shared_memory_config: cfg, ..rec }
}

/// A record with one resource limit set to a value, all else unchanged.
pub open spec fn spec_with_limit(rec: ContextRecord, res: ResourceLimit, v: usize) -> ContextRecord {
    match res {
        ResourceLimit::StackSize => ContextRecord { stack_size: v, ..rec },
        ResourceLimit::PrintfFifoSize => ContextRecord { printf_fifo_size: v, ..rec },
        ResourceLimit::MallocHeapSize => ContextRecord { malloc_heap_size: v, ..rec },
        ResourceLimit::DeviceRuntimeSynchronizeDepth => ContextRecord {
            synchronize_depth: v,
            ..rec
        },
        ResourceLimit::DeviceRuntimePendingLaunchCount => ContextRecord {
            pending_launch_count: v,
            ..rec
        },
        ResourceLimit::MaxL2FetchGranularity => ContextRecord { l2_fetch_granularity: v, ..rec },
    }
}

/// Replacing one record by another with the same handle value preserves
/// every observable of the model but that record's own contents.
proof fn lemma_update_record(pre: DriverModel, post: DriverModel, i: int, rec: ContextRecord)
    requires
        pre.wf(),
        0 <= i < pre.contexts@.len(),
        rec.raw == pre.contexts@[i].raw,
        rec.flags.wf(),
        post.contexts@ == pre.contexts@.update(i, rec),
        post.next_raw == pre.next_raw,
        post.api_version == pre.api_version,
        post.least_priority == pre.least_priority,
        post.greatest_priority == pre.greatest_priority,
    ensures
        post.wf(),
        post.spec_is_live(rec.raw),
        post.spec_record(rec.raw) == rec,
        forall|h: usize| post.spec_is_live(h) == pre.spec_is_live(h),
        forall|h: usize|
            h != rec.raw && pre.spec_is_live(h) ==> post.spec_record(h) == pre.spec_record(h),
{
    let s = pre.contexts@;
    let t = post.contexts@;
    assert(forall|k: int| 0 <= k < t.len() ==> (#[trigger] t[k]).raw == s[k].raw);
    assert(post.wf());
    post.lemma_record_at(i);
    assert forall|h: usize| post.spec_is_live(h) == pre.spec_is_live(h) by {
        if pre.spec_is_live(h) {
            let j = pre.spec_index_of(h);
            assert(0 <= j < s.len() && s[j].raw == h);
            assert(t[j].raw == h);
        }
        if post.spec_is_live(h) {
            let j = post.spec_index_of(h);
            assert(0 <= j < t.len() && t[j].raw == h);
            assert(s[j].raw == h);
        }
    }
    assert forall|h: usize| h != rec.raw && pre.spec_is_live(h) implies post.spec_record(h)
        == pre.spec_record(h) by {
        let j = pre.spec_index_of(h);
        pre.lemma_record_at(j);
        assert(j != i);
        assert(t[j] == s[j]);
        post.lemma_record_at(j);
    }
}

/// The current-context accessor: operations that implicitly target the
/// context on top of the calling thread's stack.
///
/// Every operation here fails with [`CudaError::NoContextCurrent`] when the
/// stack is empty, and — where it consults the targeted context — with
/// [`CudaError::InvalidContext`] when the top entry references a destroyed
/// context.
#[derive(Debug)]
pub struct CurrentContext;

impl CurrentContext {
    /// The index of the record the current context occupies, or the error
    /// a current-context operation answers instead.
    fn current_index(driver: &DriverModel, stack: &ContextStack) -> (r: Result<usize, CudaError>)
        requires
            driver.wf(),
        ensures
            spec_current_target(*driver, stack@) matches Ok(raw) ==> (r matches Ok(i) && i
                < driver.contexts@.len() && driver.contexts@[i as int].raw == raw
                && driver.contexts@[i as int] == driver.spec_record(raw)),
            spec_current_target(*driver, stack@) matches Err(e) ==> r == Result::<
                usize,
                CudaError,
            >::Err(e),
    {
        match stack.current() {
            Err(e) => Err(e),
            Ok(u) => match driver.find_index(u.get_inner()) {
                Some(i) => Ok(i),
                None => Err(CudaError::InvalidContext),
            },
        }
    }

    /// A non-owning handle to the calling thread's current context. Fails
    /// if no context is current.
    pub fn get_current(stack: &ContextStack) -> (r: Result<UnownedContext, CudaError>)
        ensures
            spec_current(stack@) matches Some(raw) ==> (r matches Ok(u) && u.spec_inner() == raw),
            spec_current(stack@) is None ==> r == Result::<UnownedContext, CudaError>::Err(
                CudaError::NoContextCurrent,
            ),
    {
        stack.current()
    }

    /// Make the given context current for the calling thread: a push when
    /// no context was current, otherwise a replacement of the top entry —
    /// unlike a push, the stack's depth does not grow past one call. The
    /// driver validates the handle: a stale one — its context already
    /// destroyed — fails with the invalid-context error and leaves the
    /// stack unchanged.
    pub fn set_current<C: ContextHandle>(
        driver: &DriverModel,
        stack: &mut ContextStack,
        ctx: &C,
    ) -> (r: Result<(), CudaError>)
        requires
            driver.wf(),
        ensures
            driver.spec_is_live(ctx.spec_inner()) ==> r is Ok && final(stack)@ == spec_set_current(
                old(stack)@,
                ctx.spec_inner(),
            ),
            !driver.spec_is_live(ctx.spec_inner()) ==> r == Result::<(), CudaError>::Err(
                CudaError::InvalidContext,
            ) && final(stack)@ == old(stack)@,
    {
        stack.set_current(driver, ctx)
    }

    /// The device the current context is bound to.
    pub fn get_device(driver: &DriverModel, stack: &ContextStack) -> (r: Result<Device, CudaError>)
        requires
            driver.wf(),
        ensures
            spec_current_target(*driver, stack@) matches Ok(raw) ==> r == Result::<
                Device,
                CudaError,
            >::Ok(driver.spec_record(raw).device),
            spec_current_target(*driver, stack@) matches Err(e) ==> r == Result::<
                Device,
                CudaError,
            >::Err(e),
    {
        match Self::current_index(driver, stack) {
            Ok(i) => Ok(driver.contexts[i].device),
            Err(e) => Err(e),
        }
    }

    /// The flags the current context was created with.
    pub fn get_flags(driver: &DriverModel, stack: &ContextStack) -> (r: Result<
        ContextFlags,
        CudaError,
    >)
        requires
            driver.wf(),
        ensures
            spec_current_target(*driver, stack@) matches Ok(raw) ==> r == Result::<
                ContextFlags,
                CudaError,
            >::Ok(driver.spec_record(raw).flags) && driver.spec_record(raw).flags.wf(),
            spec_current_target(*driver, stack@) matches Err(e) ==> r == Result::<
                ContextFlags,
                CudaError,
            >::Err(e),
    {
        match Self::current_index(driver, stack) {
            Ok(i) => Ok(driver.contexts[i].flags),
            Err(e) => Err(e),
        }
    }

    /// The current context's preferred cache configuration. On devices
    /// with fixed cache sizes the driver always reports `PreferNone`.
    pub fn get_cache_config(driver: &DriverModel, stack: &ContextStack) -> (r: Result<
        CacheConfig,
        CudaError,
    >)
        requires
            driver.wf(),
        ensures
            spec_current_target(*driver, stack@) matches Ok(raw) ==> r == Result::<
                CacheConfig,
                CudaError,
            >::Ok(driver.spec_record(raw).cache_config),
            spec_current_target(*driver, stack@) matches Err(e) ==> r == Result::<
                CacheConfig,
                CudaError,
            >::Err(e),
    {
        match Self::current_index(driver, stack) {
            Ok(i) => Ok(driver.contexts[i].cache_config),
            Err(e) => Err(e),
        }
    }

    /// Request a preferred cache configuration for the current context.
    ///
    /// The request is advisory on real hardware; the model records what the
    /// driver accepted, which the matching query then reports.
    pub fn set_cache_config(driver: &mut DriverModel, stack: &ContextStack, cfg: CacheConfig) -> (r:
        Result<(), CudaError>)
        requires
            old(driver).wf(),
        ensures
            final(driver).wf(),
            spec_current_target(*old(driver), stack@) matches Ok(raw) ==> ({
                &&& r is Ok
                &&& final(driver).spec_record(raw) == spec_with_cache(
                    old(driver).spec_record(raw),
                    cfg,
                )
            }),
            spec_current_target(*old(driver), stack@) matches Err(e) ==> r == Result::<
                (),
                CudaError,
            >::Err(e) && *final(driver) == *old(driver),
            forall|h: usize| final(driver).spec_is_live(h) == old(driver).spec_is_live(h),
            forall|h: usize|
                (spec_current_target(*old(driver), stack@) matches Ok(raw) && h != raw && old(
                    driver,
                ).spec_is_live(h)) ==> final(driver).spec_record(h) == old(driver).spec_record(h),
            final(driver).spec_next_raw() == old(driver).spec_next_raw(),
            final(driver).spec_api_version() == old(driver).spec_api_version(),
            final(driver).spec_least_priority() == old(driver).spec_least_priority(),
            final(driver).spec_greatest_priority() == old(driver).spec_greatest_priority(),
    {
        match Self::current_index(driver, stack) {
            Ok(i) => {
                let ghost pre = *driver;
                let mut rec = driver.contexts[i];
                rec.cache_config = cfg;
                driver.contexts[i] = rec;
                proof {
                    lemma_update_record(pre, *driver, i as int, rec);
                }
                Ok(())
            },
            Err(e) => Err(e),
        }
    }

    /// The current context's shared-memory bank configuration.
    pub fn get_shared_memory_config(driver: &DriverModel, stack: &ContextStack) -> (r: Result<
        SharedMemoryConfig,
        CudaError,
    >)
        requires
            driver.wf(),
        ensures
            spec_current_target(*driver, stack@) matches Ok(raw) ==> r == Result::<
                SharedMemoryConfig,
                CudaError,
            >::Ok(driver.spec_record(raw).shared_memory_config),
            spec_current_target(*driver, stack@) matches Err(e) ==> r == Result::<
                SharedMemoryConfig,
                CudaError,
            >::Err(e),
    {
        match Self::current_index(driver, stack) {
            Ok(i) => Ok(driver.contexts[i].shared_memory_config),
            Err(e) => Err(e),
        }
    }

    /// Request a shared-memory bank configuration for the current context,
    /// with the same advisory semantics as the cache configuration.
    pub fn set_shared_memory_config(
        driver: &mut DriverModel,
        stack: &ContextStack,
        cfg: SharedMemoryConfig,
    ) -> (r: Result<(), CudaError>)
        requires
            old(driver).wf(),
        ensures
            final(driver).wf(),
            spec_current_target(*old(driver), stack@) matches Ok(raw) ==> ({
                &&& r is Ok
                &&& final(driver).spec_record(raw) == spec_with_shared(
                    old(driver).spec_record(raw),
                    cfg,
                )
            }),
            spec_current_target(*old(driver), stack@) matches Err(e) ==> r == Result::<
                (),
                CudaError,
            >::Err(e) && *final(driver) == *old(driver),
            forall|h: usize| final(driver).spec_is_live(h) == old(driver).spec_is_live(h),
            forall|h: usize|
                (spec_current_target(*old(driver), stack@) matches Ok(raw) && h != raw && old(
                    driver,
                ).spec_is_live(h)) ==> final(driver).spec_record(h) == old(driver).spec_record(h),
            final(driver).spec_next_raw() == old(driver).spec_next_raw(),
            final(driver).spec_api_version() == old(driver).spec_api_version(),
            final(driver).spec_least_priority() == old(driver).spec_least_priority(),
            final(driver).spec_greatest_priority() == old(driver).spec_greatest_priority(),
    {
        match Self::current_index(driver, stack) {
            Ok(i) => {
                let ghost pre = *driver;
                let mut rec = driver.contexts[i];
                rec.shared_memory_config = cfg;
                driver.contexts[i] = rec;
                proof {
                    lemma_update_record(pre, *driver, i as int, rec);
                }
                Ok(())
            },
            Err(e) => Err(e),
        }
    }

    /// The current context's value for one resource limit: whatever the
    /// driver accepted last, which may differ from what was requested.
    pub fn get_resource_limit(
        driver: &DriverModel,
        stack: &ContextStack,
        resource: ResourceLimit,
    ) -> (r: Result<usize, CudaError>)
        requires
            driver.wf(),
        ensures
            spec_current_target(*driver, stack@) matches Ok(raw) ==> r == Result::<
                usize,
                CudaError,
            >::Ok(spec_limit(driver.spec_record(raw), resource)),
            spec_current_target(*driver, stack@) matches Err(e) ==> r == Result::<
                usize,
                CudaError,
            >::Err(e),
    {
        match Self::current_index(driver, stack) {
            Ok(i) => {
                let rec = driver.contexts[i];
                match resource {
                    ResourceLimit::StackSize => Ok(rec.stack_size),
                    ResourceLimit::PrintfFifoSize => Ok(rec.printf_fifo_size),
                    ResourceLimit::MallocHeapSize => Ok(rec.malloc_heap_size),
                    ResourceLimit::DeviceRuntimeSynchronizeDepth => Ok(rec.synchronize_depth),
                    ResourceLimit::DeviceRuntimePendingLaunchCount => Ok(rec.pending_launch_count),
                    ResourceLimit::MaxL2FetchGranularity => Ok(rec.l2_fetch_granularity),
                }
            },
            Err(e) => Err(e),
        }
    }

    /// Request a resource limit for the current context.
    ///
    /// On real hardware the driver may clamp the request, and some limits
    /// become immutable once certain kernel activity has occurred, which
    /// fails with [`CudaError::UnsupportedLimit`]; the model runs no
    /// kernels, so it records the request as accepted, and the matching
    /// query reports the recorded value.
    pub fn set_resource_limit(
        driver: &mut DriverModel,
        stack: &ContextStack,
        resource: ResourceLimit,
        limit: usize,
    ) -> (r: Result<(), CudaError>)
        requires
            old(driver).wf(),
        ensures
            final(driver).wf(),
            spec_current_target(*old(driver), stack@) matches Ok(raw) ==> ({
                &&& r is Ok
                &&& final(driver).spec_record(raw) == spec_with_limit(
                    old(driver).spec_record(raw),
                    resource,
                    limit,
                )
            }),
            spec_current_target(*old(driver), stack@) matches Err(e) ==> r == Result::<
                (),
                CudaError,
            >::Err(e) && *final(driver) == *old(driver),
            forall|h: usize| final(driver).spec_is_live(h) == old(driver).spec_is_live(h),
            forall|h: usize|
                (spec_current_target(*old(driver), stack@) matches Ok(raw) && h != raw && old(
                    driver,
                ).spec_is_live(h)) ==> final(driver).spec_record(h) == old(driver).spec_record(h),
            final(driver).spec_next_raw() == old(driver).spec_next_raw(),
            final(driver).spec_api_version() == old(driver).spec_api_version(),
            final(driver).spec_least_priority() == old(driver).spec_least_priority(),
            final(driver).spec_greatest_priority() == old(driver).spec_greatest_priority(),
    {
        match Self::current_index(driver, stack) {
            Ok(i) => {
                let ghost pre = *driver;
                let mut rec = driver.contexts[i];
                match resource {
                    ResourceLimit::StackSize => rec.stack_size = limit,
                    ResourceLimit::PrintfFifoSize => rec.printf_fifo_size = limit,
                    ResourceLimit::MallocHeapSize => rec.malloc_heap_size = limit,
                    ResourceLimit::DeviceRuntimeSynchronizeDepth => rec.synchronize_depth = limit,
                    ResourceLimit::DeviceRuntimePendingLaunchCount => rec.pending_launch_count
                        = limit,
                    ResourceLimit::MaxL2FetchGranularity => rec.l2_fetch_granularity = limit,
                }
                driver.contexts[i] = rec;
                proof {
                    lemma_update_record(pre, *driver, i as int, rec);
                }
                Ok(())
            },
            Err(e) => Err(e),
        }
    }

    /// The device's stream priority bounds, numerically ordered
    /// `greatest <= least`; both zero on a device without stream priority
    /// support. Streams created outside these bounds are clamped into them
    /// by the driver.
    pub fn get_stream_priority_range(driver: &DriverModel, stack: &ContextStack) -> (r: Result<
        StreamPriorityRange,
        CudaError,
    >)
        requires
            driver.wf(),
        ensures
            spec_current_target(*driver, stack@) matches Ok(raw) ==> (r matches Ok(p)
                && p.least == driver.spec_least_priority() && p.greatest
                == driver.spec_greatest_priority() && p.greatest <= p.least),
            spec_current_target(*driver, stack@) matches Err(e) ==> r == Result::<
                StreamPriorityRange,
                CudaError,
            >::Err(e),
    {
        match Self::current_index(driver, stack) {
            Ok(_) => Ok(
                StreamPriorityRange {
                    least: driver.least_priority,
                    greatest: driver.greatest_priority,
                },
            ),
            Err(e) => Err(e),
        }
    }

    /// Block the calling thread until all outstanding work on the current
    /// context has completed. The model carries no outstanding work, so
    /// only the targeting errors remain observable.
    pub fn synchronize(driver: &DriverModel, stack: &ContextStack) -> (r: Result<(), CudaError>)
        requires
            driver.wf(),
        ensures
            spec_current_target(*driver, stack@) matches Ok(raw) ==> r is Ok,
            spec_current_target(*driver, stack@) matches Err(e) ==> r == Result::<
                (),
                CudaError,
            >::Err(e),
    {
        match Self::current_index(driver, stack) {
            Ok(_) => Ok(()),
            Err(e) => Err(e),
        }
    }
}

} // verus!
