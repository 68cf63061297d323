//! Structured errors for every fallible context operation.
//!
//! The driver reports a numeric status code from each call; code zero means
//! success. Every nonzero code maps one-to-one into [`CudaError`] without
//! losing the original code, so diagnostics can always recover it. One extra
//! variant, [`CudaError::NoContextCurrent`], is never produced by the code
//! mapping: it is synthesized when a query finds the calling thread's stack
//! empty (the driver signals that with a null handle, not with a code).

use vstd::prelude::*;

verus! {

/// Status code the driver returns on success.
pub const STATUS_SUCCESS: u32 = 0;
/// Status code for an invalid or out-of-range configuration value.
pub const STATUS_INVALID_VALUE: u32 = 1;
/// Status code for an exhausted resource, reported among other things when
/// no further context can be created.
pub const STATUS_OUT_OF_MEMORY: u32 = 2;
/// Status code for an invalid (for instance, already destroyed) context.
pub const STATUS_INVALID_CONTEXT: u32 = 201;
/// Status code for an unsupported resource limit, including a limit that has
/// become immutable after kernel activity.
pub const STATUS_UNSUPPORTED_LIMIT: u32 = 215;
/// Status code for a use of a context whose destruction has begun.
pub const STATUS_CONTEXT_DESTROYED: u32 = 709;

/// Error returned by every fallible operation in this crate.
///
/// The named variants carry the categories callers are expected to branch
/// on; `Native` carries any other nonzero driver status code unchanged.
#[derive(Clone, Copy, Debug, PartialEq, Eq, Structural, Hash)]
pub enum CudaError {
    /// A configuration value was invalid or out of range.
    InvalidValue,
    /// The targeted context is invalid, typically because it was destroyed.
    InvalidContext,
    /// The targeted context is being or has been destroyed.
    ContextDestroyed,
    /// The requested resource limit is unsupported, or can no longer be
    /// changed at this time.
    UnsupportedLimit,
    /// No context is current on the calling thread.
    NoContextCurrent,
    /// Any other nonzero driver status code, preserved as is.
    Native(u32),
}

/// The error that a nonzero driver status code maps to.
pub open spec fn spec_error_of(code: u32) -> CudaError {
    if code == STATUS_INVALID_VALUE {
        CudaError::InvalidValue
    } else if code == STATUS_INVALID_CONTEXT {
        CudaError::InvalidContext
    } else if code == STATUS_CONTEXT_DESTROYED {
        CudaError::ContextDestroyed
    } else if code == STATUS_UNSUPPORTED_LIMIT {
        CudaError::UnsupportedLimit
    } else {
        CudaError::Native(code)
    }
}

/// The driver status code an error stands for. `NoContextCurrent` is the one
/// error not produced by the driver itself; it reports the success code,
/// since the underlying call did not fail.
pub open spec fn spec_code_of(e: CudaError) -> u32 {
    match e {
        CudaError::InvalidValue => STATUS_INVALID_VALUE,
        CudaError::InvalidContext => STATUS_INVALID_CONTEXT,
        CudaError::ContextDestroyed => STATUS_CONTEXT_DESTROYED,
        CudaError::UnsupportedLimit => STATUS_UNSUPPORTED_LIMIT,
        CudaError::NoContextCurrent => STATUS_SUCCESS,
        CudaError::Native(code) => code,
    }
}

impl CudaError {
    /// Map a nonzero driver status code into the error taxonomy.
    pub fn from_code(code: u32) -> (r: CudaError)
        requires
            code != STATUS_SUCCESS,
        ensures
            r == spec_error_of(code),
    {
        if code == STATUS_INVALID_VALUE {
            CudaError::InvalidValue
        } else if code == STATUS_INVALID_CONTEXT {
            CudaError::InvalidContext
        } else if code == STATUS_CONTEXT_DESTROYED {
            CudaError::ContextDestroyed
        } else if code == STATUS_UNSUPPORTED_LIMIT {
            CudaError::UnsupportedLimit
        } else {
            CudaError::Native(code)
        }
    }

    /// The driver status code this error stands for.
    pub fn code(&self) -> (r: u32)
        ensures
            r == spec_code_of(*self),
    {
        match self {
            CudaError::InvalidValue => STATUS_INVALID_VALUE,
            CudaError::InvalidContext => STATUS_INVALID_CONTEXT,
            CudaError::ContextDestroyed => STATUS_CONTEXT_DESTROYED,
            CudaError::UnsupportedLimit => STATUS_UNSUPPORTED_LIMIT,
            CudaError::NoContextCurrent => STATUS_SUCCESS,
            CudaError::Native(code) => *code,
        }
    }
}

/// Normalize a driver status code: success becomes `Ok`, everything else
/// becomes the mapped error.
pub fn to_result(code: u32) -> (r: Result<(), CudaError>)
    ensures
        code == STATUS_SUCCESS <==> r is Ok,
        code != STATUS_SUCCESS ==> r == Result::<(), CudaError>::Err(spec_error_of(code)),
{
    if code == STATUS_SUCCESS {
        Ok(())
    } else {
        Err(CudaError::from_code(code))
    }
}

} // verus!
