//! The crate-level laws: properties that relate several operations.
//!
//! Each proof function here states one guarantee of the model that no
//! single operation's contract carries alone, over the same spec functions
//! those contracts use. They are part of what the library promises, proved
//! once and for all inputs.

use vstd::prelude::*;

use crate::config::CacheConfig;
use crate::config::ResourceLimit;
use crate::config::SharedMemoryConfig;
use crate::driver::DriverModel;
use crate::driver::spec_api_version_query;
use crate::driver::spec_current_target;
use crate::driver::spec_limit;
use crate::driver::spec_with_cache;
use crate::driver::spec_with_limit;
use crate::driver::spec_with_shared;
use crate::error::CudaError;
use crate::error::spec_code_of;
use crate::error::spec_error_of;
use crate::error::STATUS_SUCCESS;
use crate::handle::Context;
use crate::handle::ContextHandle;
use crate::handle::UnownedContext;
use crate::stack::spec_current;
use crate::stack::spec_pop;
use crate::stack::spec_push;
use crate::stack::spec_set_current;

verus! {

/// Popping right after a push restores the stack exactly, and the popped
/// entry is the pushed handle: identity is preserved across a push/pop
/// round trip. In particular, the creating thread's stack — where creation
/// pushes the new context — is empty again once the caller pops, and the
/// current-context query then finds no context current.
pub proof fn lemma_push_pop_round_trip(s: Seq<usize>, h: usize)
    ensures
        spec_push(s, h).len() == s.len() + 1,
        spec_push(s, h).last() == h,
        spec_pop(spec_push(s, h)) == s,
        s.len() == 0 ==> spec_current(spec_pop(spec_push(s, h))) is None,
{
    assert(spec_pop(spec_push(s, h)) =~= s);
}

/// Overwriting the current context is a push on an empty stack and a
/// replacement of the top entry otherwise: the depth grows from zero to
/// one or stays unchanged, and the given handle is current afterwards.
pub proof fn lemma_set_current_shape(s: Seq<usize>, h: usize)
    ensures
        s.len() == 0 ==> spec_set_current(s, h) == spec_push(s, h),
        s.len() > 0 ==> spec_set_current(s, h).len() == s.len(),
        spec_current(spec_set_current(s, h)) == Some(h),
{
    if s.len() == 0 {
        assert(spec_set_current(s, h) =~= spec_push(s, h));
    }
}

/// A non-owning handle derived from an owning one answers the API version
/// query exactly as its owner does, in every driver state: the answer
/// depends only on the native handle value the two share, which deriving
/// preserves, and equal version numbers mean equal version values (see
/// [`crate::version::lemma_version_determines_value`]).
pub proof fn lemma_derived_query_agrees(d: DriverModel, owner: Context, derived: UnownedContext)
    requires
        derived.spec_inner() == owner.spec_inner(),
    ensures
        spec_api_version_query(d, derived.spec_inner()) == spec_api_version_query(
            d,
            owner.spec_inner(),
        ),
{
}

/// After a successful resource limit set, the matching query on the same
/// thread answers the recorded value — a value, never an error: the
/// current context stays targeted and carries the limit just set.
pub proof fn lemma_set_then_get_limit(
    pre: DriverModel,
    post: DriverModel,
    s: Seq<usize>,
    raw: usize,
    resource: ResourceLimit,
    limit: usize,
)
    requires
        spec_current_target(pre, s) == Result::<usize, CudaError>::Ok(raw),
        post.spec_record(raw) == spec_with_limit(pre.spec_record(raw), resource, limit),
        forall|h: usize| post.spec_is_live(h) == pre.spec_is_live(h),
    ensures
        spec_current_target(post, s) == Result::<usize, CudaError>::Ok(raw),
        spec_limit(post.spec_record(raw), resource) == limit,
{
}

/// After a successful cache configuration set, the matching query on the
/// same thread answers without error, and what it answers is the recorded
/// configuration — a member of the enumerated set by construction.
pub proof fn lemma_set_then_get_cache_config(
    pre: DriverModel,
    post: DriverModel,
    s: Seq<usize>,
    raw: usize,
    cfg: CacheConfig,
)
    requires
        spec_current_target(pre, s) == Result::<usize, CudaError>::Ok(raw),
        post.spec_record(raw) == spec_with_cache(pre.spec_record(raw), cfg),
        forall|h: usize| post.spec_is_live(h) == pre.spec_is_live(h),
    ensures
        spec_current_target(post, s) == Result::<usize, CudaError>::Ok(raw),
        post.spec_record(raw).cache_config == cfg,
{
}

/// After a successful shared-memory configuration set, the matching query
/// on the same thread answers without error, and what it answers is the
/// recorded configuration.
pub proof fn lemma_set_then_get_shared_memory_config(
    pre: DriverModel,
    post: DriverModel,
    s: Seq<usize>,
    raw: usize,
    cfg: SharedMemoryConfig,
)
    requires
        spec_current_target(pre, s) == Result::<usize, CudaError>::Ok(raw),
        post.spec_record(raw) == spec_with_shared(pre.spec_record(raw), cfg),
        forall|h: usize| post.spec_is_live(h) == pre.spec_is_live(h),
    ensures
        spec_current_target(post, s) == Result::<usize, CudaError>::Ok(raw),
        post.spec_record(raw).shared_memory_config == cfg,
{
}

/// The error taxonomy loses no information: every nonzero driver status
/// code can be recovered from the error it maps to.
pub proof fn lemma_error_code_preserved(code: u32)
    requires
        code != STATUS_SUCCESS,
    ensures
        spec_code_of(spec_error_of(code)) == code,
{
}

} // verus!
