//! Interpretation of raw driver call outcomes.
//!
//! Every native context call answers with a numeric status code and, for
//! queries, one or two out-parameters. The functions here turn each such
//! raw answer into the library's types: a nonzero status becomes the mapped
//! [`CudaError`], a null current-context handle becomes an explicit
//! "no context current" error, an out-of-range enumeration code becomes an
//! "invalid value" error, and unknown flag bits are discarded. The embedding
//! layer that performs the native calls hands every answer through these
//! functions, so the whole mapping is verified for every value the driver
//! could return.

use vstd::prelude::*;

use crate::config::CacheConfig;
use crate::config::ResourceLimit;
use crate::config::SharedMemoryConfig;
use crate::config::StreamPriorityRange;
use crate::device::Device;
use crate::error::CudaError;
use crate::error::spec_error_of;
use crate::error::STATUS_SUCCESS;
use crate::flags::ContextFlags;
use crate::flags::FLAGS_MASK;
use crate::handle::Context;
use crate::handle::ContextHandle;
use crate::handle::UnownedContext;
use crate::version::CudaApiVersion;

verus! {

/// Interpret the outcome of the native context creation call: on success
/// the new handle becomes the one owning handle of the created context.
pub fn created_context(status: u32, raw: usize) -> (r: Result<Context, CudaError>)
    ensures
        status == STATUS_SUCCESS ==> (r matches Ok(c) && c.spec_inner() == raw),
        status != STATUS_SUCCESS ==> r == Result::<Context, CudaError>::Err(spec_error_of(status)),
{
    match crate::error::to_result(status) {
        Ok(()) => Ok(Context::from_inner(raw)),
        Err(e) => Err(e),
    }
}

/// Interpret the outcome of popping the calling thread's stack: on success
/// the removed entry is returned as a non-owning handle.
pub fn popped_context(status: u32, raw: usize) -> (r: Result<UnownedContext, CudaError>)
    ensures
        status == STATUS_SUCCESS ==> (r matches Ok(c) && c.spec_inner() == raw),
        status != STATUS_SUCCESS ==> r == Result::<UnownedContext, CudaError>::Err(
            spec_error_of(status),
        ),
{
    match crate::error::to_result(status) {
        Ok(()) => Ok(UnownedContext::from_inner(raw)),
        Err(e) => Err(e),
    }
}

/// Interpret the outcome of the current-context query. The driver answers
/// an empty stack with success and a null handle; that is normalized here
/// into the explicit "no context current" error, so a successful result
/// always references a context.
pub fn current_context(status: u32, raw: usize) -> (r: Result<UnownedContext, CudaError>)
    ensures
        status == STATUS_SUCCESS && raw != 0 ==> (r matches Ok(c) && c.spec_inner() == raw),
        status == STATUS_SUCCESS && raw == 0 ==> r == Result::<UnownedContext, CudaError>::Err(
            CudaError::NoContextCurrent,
        ),
        status != STATUS_SUCCESS ==> r == Result::<UnownedContext, CudaError>::Err(
            spec_error_of(status),
        ),
{
    match crate::error::to_result(status) {
        Ok(()) => {
            if raw == 0 {
                Err(CudaError::NoContextCurrent)
            } else {
                Ok(UnownedContext::from_inner(raw))
            }
        },
        Err(e) => Err(e),
    }
}

/// Interpret the outcome of the API version query.
pub fn api_version(status: u32, raw: u32) -> (r: Result<CudaApiVersion, CudaError>)
    ensures
        status == STATUS_SUCCESS ==> (r matches Ok(v) && v.spec_version() == raw),
        status != STATUS_SUCCESS ==> r == Result::<CudaApiVersion, CudaError>::Err(
            spec_error_of(status),
        ),
{
    match crate::error::to_result(status) {
        Ok(()) => Ok(CudaApiVersion::from_raw(raw)),
        Err(e) => Err(e),
    }
}

/// Interpret the outcome of the device query for the current context.
pub fn current_device(status: u32, raw: i32) -> (r: Result<Device, CudaError>)
    ensures
        status == STATUS_SUCCESS ==> (r matches Ok(d) && d.spec_ordinal() == raw),
        status != STATUS_SUCCESS ==> r == Result::<Device, CudaError>::Err(spec_error_of(status)),
{
    match crate::error::to_result(status) {
        Ok(()) => Ok(Device::new(raw)),
        Err(e) => Err(e),
    }
}

/// Interpret the outcome of the creation-flags query: unknown bits in the
/// reported word are discarded.
pub fn current_flags(status: u32, raw: u32) -> (r: Result<ContextFlags, CudaError>)
    ensures
        status == STATUS_SUCCESS ==> (r matches Ok(f) && f.spec_bits() == raw & FLAGS_MASK
            && f.wf()),
        status != STATUS_SUCCESS ==> r == Result::<ContextFlags, CudaError>::Err(
            spec_error_of(status),
        ),
{
    match crate::error::to_result(status) {
        Ok(()) => Ok(ContextFlags::from_bits_truncate(raw)),
        Err(e) => Err(e),
    }
}

/// Interpret the outcome of the cache-configuration query: a code outside
/// the enumerated set is reported as an invalid value, never reinterpreted.
pub fn current_cache_config(status: u32, raw: u32) -> (r: Result<CacheConfig, CudaError>)
    ensures
        status == STATUS_SUCCESS && raw <= 3 ==> (r matches Ok(c) && c.spec_raw() == raw),
        status == STATUS_SUCCESS && raw > 3 ==> r == Result::<CacheConfig, CudaError>::Err(
            CudaError::InvalidValue,
        ),
        status != STATUS_SUCCESS ==> r == Result::<CacheConfig, CudaError>::Err(
            spec_error_of(status),
        ),
{
    match crate::error::to_result(status) {
        Ok(()) => match CacheConfig::from_raw(raw) {
            Some(c) => Ok(c),
            None => Err(CudaError::InvalidValue),
        },
        Err(e) => Err(e),
    }
}

/// Interpret the outcome of the shared-memory-configuration query, in the
/// same checked way as the cache-configuration query.
pub fn current_shared_memory_config(status: u32, raw: u32) -> (r: Result<
    SharedMemoryConfig,
    CudaError,
>)
    ensures
        status == STATUS_SUCCESS && raw <= 2 ==> (r matches Ok(c) && c.spec_raw() == raw),
        status == STATUS_SUCCESS && raw > 2 ==> r == Result::<SharedMemoryConfig, CudaError>::Err(
            CudaError::InvalidValue,
        ),
        status != STATUS_SUCCESS ==> r == Result::<SharedMemoryConfig, CudaError>::Err(
            spec_error_of(status),
        ),
{
    match crate::error::to_result(status) {
        Ok(()) => match SharedMemoryConfig::from_raw(raw) {
            Some(c) => Ok(c),
            None => Err(CudaError::InvalidValue),
        },
        Err(e) => Err(e),
    }
}

/// Interpret the outcome of a resource-limit query. The reported value is
/// whatever the driver accepted, which may differ from what was last
/// requested because of clamping.
pub fn current_limit(status: u32, value: usize) -> (r: Result<usize, CudaError>)
    ensures
        status == STATUS_SUCCESS ==> r == Result::<usize, CudaError>::Ok(value),
        status != STATUS_SUCCESS ==> r == Result::<usize, CudaError>::Err(spec_error_of(status)),
{
    match crate::error::to_result(status) {
        Ok(()) => Ok(value),
        Err(e) => Err(e),
    }
}

/// Interpret the outcome of the stream-priority-range query. A device
/// without stream priority support reports zero for both bounds.
pub fn priority_range(status: u32, least: i32, greatest: i32) -> (r: Result<
    StreamPriorityRange,
    CudaError,
>)
    ensures
        status == STATUS_SUCCESS ==> r == Result::<StreamPriorityRange, CudaError>::Ok(
            StreamPriorityRange { least, greatest },
        ),
        status != STATUS_SUCCESS ==> r == Result::<StreamPriorityRange, CudaError>::Err(
            spec_error_of(status),
        ),
{
    match crate::error::to_result(status) {
        Ok(()) => Ok(StreamPriorityRange { least, greatest }),
        Err(e) => Err(e),
    }
}

} // verus!
