//! The status-code-to-error mapping and its code preservation.

use cuda_context::error::{
    to_result, CudaError, STATUS_CONTEXT_DESTROYED, STATUS_INVALID_CONTEXT, STATUS_INVALID_VALUE,
    STATUS_SUCCESS, STATUS_UNSUPPORTED_LIMIT,
};

#[test]
fn named_codes_map_to_named_variants() {
    assert_eq!(
        CudaError::from_code(STATUS_INVALID_VALUE),
        CudaError::InvalidValue
    );
    assert_eq!(
        CudaError::from_code(STATUS_INVALID_CONTEXT),
        CudaError::InvalidContext
    );
    assert_eq!(
        CudaError::from_code(STATUS_CONTEXT_DESTROYED),
        CudaError::ContextDestroyed
    );
    assert_eq!(
        CudaError::from_code(STATUS_UNSUPPORTED_LIMIT),
        CudaError::UnsupportedLimit
    );
    assert_eq!(CudaError::from_code(999), CudaError::Native(999));
}

#[test]
fn every_nonzero_code_is_preserved() {
    for code in [1u32, 2, 3, 4, 100, 201, 215, 216, 709, 999, u32::MAX] {
        assert_eq!(CudaError::from_code(code).code(), code);
    }
}

#[test]
fn no_context_current_is_not_a_driver_failure() {
    assert_eq!(CudaError::NoContextCurrent.code(), STATUS_SUCCESS);
}

#[test]
fn to_result_splits_on_success() {
    assert_eq!(to_result(STATUS_SUCCESS), Ok(()));
    assert_eq!(to_result(201), Err(CudaError::InvalidContext));
    assert_eq!(to_result(77), Err(CudaError::Native(77)));
}
