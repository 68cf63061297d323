//! Interpretation of raw driver answers into the library's types.

use cuda_context::config::{CacheConfig, SharedMemoryConfig, StreamPriorityRange};
use cuda_context::error::CudaError;
use cuda_context::handle::ContextHandle;
use cuda_context::outcome;

#[test]
fn created_context_wraps_the_new_handle() {
    let ctx = outcome::created_context(0, 0x7701).unwrap();
    assert_eq!(ctx.get_inner(), 0x7701);
    assert_eq!(
        outcome::created_context(201, 0).unwrap_err(),
        CudaError::InvalidContext
    );
}

#[test]
fn popped_context_wraps_the_removed_entry() {
    let ctx = outcome::popped_context(0, 0x88).unwrap();
    assert_eq!(ctx.get_inner(), 0x88);
    assert_eq!(
        outcome::popped_context(201, 0).unwrap_err(),
        CudaError::InvalidContext
    );
}

#[test]
fn current_context_normalizes_the_null_handle() {
    let ctx = outcome::current_context(0, 0x99).unwrap();
    assert_eq!(ctx.get_inner(), 0x99);
    assert_eq!(
        outcome::current_context(0, 0).unwrap_err(),
        CudaError::NoContextCurrent
    );
    assert_eq!(
        outcome::current_context(4, 0).unwrap_err(),
        CudaError::Native(4)
    );
}

#[test]
fn api_version_carries_the_composite_number() {
    let v = outcome::api_version(0, 9020).unwrap();
    assert_eq!(v.version(), 9020);
    assert_eq!(v.major(), 9);
    assert_eq!(v.minor(), 2);
    assert_eq!(
        outcome::api_version(709, 0).unwrap_err(),
        CudaError::ContextDestroyed
    );
}

#[test]
fn current_device_wraps_the_ordinal() {
    let d = outcome::current_device(0, 3).unwrap();
    assert_eq!(d.into_inner(), 3);
    assert_eq!(
        outcome::current_device(201, 0).unwrap_err(),
        CudaError::InvalidContext
    );
}

#[test]
fn current_flags_truncates_unknown_bits() {
    let f = outcome::current_flags(0, 0x2d).unwrap();
    assert_eq!(f.bits(), 0x0d);
    assert_eq!(
        outcome::current_flags(1, 0).unwrap_err(),
        CudaError::InvalidValue
    );
}

#[test]
fn cache_config_rejects_out_of_range_codes() {
    assert_eq!(
        outcome::current_cache_config(0, 2).unwrap(),
        CacheConfig::PreferL1
    );
    assert_eq!(
        outcome::current_cache_config(0, 9).unwrap_err(),
        CudaError::InvalidValue
    );
    assert_eq!(
        outcome::current_cache_config(201, 0).unwrap_err(),
        CudaError::InvalidContext
    );
}

#[test]
fn shared_memory_config_rejects_out_of_range_codes() {
    assert_eq!(
        outcome::current_shared_memory_config(0, 1).unwrap(),
        SharedMemoryConfig::FourByteBankSize
    );
    assert_eq!(
        outcome::current_shared_memory_config(0, 5).unwrap_err(),
        CudaError::InvalidValue
    );
}

#[test]
fn limit_and_priority_range_pass_values_through() {
    assert_eq!(outcome::current_limit(0, 4096).unwrap(), 4096);
    assert_eq!(
        outcome::current_limit(215, 0).unwrap_err(),
        CudaError::UnsupportedLimit
    );

    let range = outcome::priority_range(0, 0, -5).unwrap();
    assert_eq!(
        range,
        StreamPriorityRange {
            least: 0,
            greatest: -5
        }
    );
    assert!(range.greatest <= range.least);
    assert_eq!(
        outcome::priority_range(201, 0, 0).unwrap_err(),
        CudaError::InvalidContext
    );
}
