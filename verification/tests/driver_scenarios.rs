//! End-to-end scenarios against the driver state model.

use cuda_context::config::{CacheConfig, ResourceLimit, SharedMemoryConfig};
use cuda_context::device::Device;
use cuda_context::driver::{CurrentContext, DriverModel};
use cuda_context::error::CudaError;
use cuda_context::flags::ContextFlags;
use cuda_context::handle::{Context, ContextHandle};
use cuda_context::stack::ContextStack;

fn default_flags() -> ContextFlags {
    ContextFlags::map_host().union(&ContextFlags::sched_auto())
}

#[test]
fn derived_handle_reports_the_same_api_version() {
    let mut driver = DriverModel::new(9020, 0, -5);
    let mut stack = ContextStack::new();
    let ctx = Context::create_and_push(&mut driver, &mut stack, default_flags(), Device::new(0))
        .unwrap();

    let owned = ctx.get_api_version(&driver).unwrap();
    let derived = ctx.get_unowned().get_api_version(&driver).unwrap();
    assert_eq!(owned, derived);
    assert_eq!(owned.version(), 9020);
}

#[test]
fn queries_report_creation_parameters() {
    let mut driver = DriverModel::new(10010, 0, -2);
    let mut stack = ContextStack::new();
    let flags = ContextFlags::sched_yield().union(&ContextFlags::lmem_resize_to_max());
    let _ctx =
        Context::create_and_push(&mut driver, &mut stack, flags, Device::new(2)).unwrap();

    assert_eq!(CurrentContext::get_device(&driver, &stack).unwrap(), Device::new(2));
    assert_eq!(CurrentContext::get_flags(&driver, &stack).unwrap(), flags);
    assert_eq!(
        CurrentContext::get_cache_config(&driver, &stack).unwrap(),
        CacheConfig::PreferNone
    );
    assert_eq!(
        CurrentContext::get_shared_memory_config(&driver, &stack).unwrap(),
        SharedMemoryConfig::DefaultBankSize
    );
    assert_eq!(CurrentContext::synchronize(&driver, &stack), Ok(()));
}

#[test]
fn configuration_ops_fail_without_a_current_context() {
    let driver = DriverModel::new(9020, 0, 0);
    let stack = ContextStack::new();
    assert_eq!(
        CurrentContext::get_device(&driver, &stack).unwrap_err(),
        CudaError::NoContextCurrent
    );
    assert_eq!(
        CurrentContext::get_resource_limit(&driver, &stack, ResourceLimit::StackSize).unwrap_err(),
        CudaError::NoContextCurrent
    );
    assert_eq!(
        CurrentContext::synchronize(&driver, &stack).unwrap_err(),
        CudaError::NoContextCurrent
    );
}

#[test]
fn set_then_get_resource_limit_returns_the_accepted_value() {
    let mut driver = DriverModel::new(9020, 0, 0);
    let mut stack = ContextStack::new();
    let _ctx = Context::create_and_push(&mut driver, &mut stack, default_flags(), Device::new(0))
        .unwrap();

    CurrentContext::set_resource_limit(&mut driver, &stack, ResourceLimit::StackSize, 2048)
        .unwrap();
    let got =
        CurrentContext::get_resource_limit(&driver, &stack, ResourceLimit::StackSize).unwrap();
    assert_eq!(got, 2048);

    CurrentContext::set_resource_limit(&mut driver, &stack, ResourceLimit::MallocHeapSize, 1 << 20)
        .unwrap();
    assert_eq!(
        CurrentContext::get_resource_limit(&driver, &stack, ResourceLimit::MallocHeapSize)
            .unwrap(),
        1 << 20
    );
    assert_eq!(
        CurrentContext::get_resource_limit(&driver, &stack, ResourceLimit::StackSize).unwrap(),
        2048
    );
}

#[test]
fn cache_and_shared_memory_round_trips_stay_in_the_enumerated_sets() {
    let mut driver = DriverModel::new(9020, 0, 0);
    let mut stack = ContextStack::new();
    let _ctx = Context::create_and_push(&mut driver, &mut stack, default_flags(), Device::new(0))
        .unwrap();

    CurrentContext::set_cache_config(&mut driver, &stack, CacheConfig::PreferL1).unwrap();
    let cache = CurrentContext::get_cache_config(&driver, &stack).unwrap();
    assert!(matches!(
        cache,
        CacheConfig::PreferNone
            | CacheConfig::PreferShared
            | CacheConfig::PreferL1
            | CacheConfig::PreferEqual
    ));
    assert_eq!(cache, CacheConfig::PreferL1);

    CurrentContext::set_shared_memory_config(
        &mut driver,
        &stack,
        SharedMemoryConfig::EightByteBankSize,
    )
    .unwrap();
    let shared = CurrentContext::get_shared_memory_config(&driver, &stack).unwrap();
    assert!(matches!(
        shared,
        SharedMemoryConfig::DefaultBankSize
            | SharedMemoryConfig::FourByteBankSize
            | SharedMemoryConfig::EightByteBankSize
    ));
    assert_eq!(shared, SharedMemoryConfig::EightByteBankSize);
}

#[test]
fn stream_priority_range_is_ordered() {
    let mut driver = DriverModel::new(9020, 0, -5);
    let mut stack = ContextStack::new();
    let _ctx = Context::create_and_push(&mut driver, &mut stack, default_flags(), Device::new(0))
        .unwrap();

    let range = CurrentContext::get_stream_priority_range(&driver, &stack).unwrap();
    assert!(range.greatest <= range.least);
    assert_eq!(range.least, 0);
    assert_eq!(range.greatest, -5);
}

#[test]
fn stream_priority_range_may_be_all_zero() {
    let mut driver = DriverModel::new(9020, 0, 0);
    let mut stack = ContextStack::new();
    let _ctx = Context::create_and_push(&mut driver, &mut stack, default_flags(), Device::new(0))
        .unwrap();

    let range = CurrentContext::get_stream_priority_range(&driver, &stack).unwrap();
    assert!(range.greatest <= range.least);
    assert_eq!((range.least, range.greatest), (0, 0));
}

#[test]
fn destruction_is_observable_from_every_derived_handle() {
    // Create on the main stack with {map-host, scheduling=auto}, pop for
    // explicit control, share with four worker stacks, then destroy and
    // watch every handle dangle.
    let mut driver = DriverModel::new(9020, 0, 0);
    let mut main_stack = ContextStack::new();
    let ctx =
        Context::create_and_push(&mut driver, &mut main_stack, default_flags(), Device::new(0))
            .unwrap();
    main_stack.pop().unwrap();
    assert_eq!(main_stack.depth(), 0);

    let mut workers: Vec<ContextStack> = (0..4).map(|_| ContextStack::new()).collect();
    for worker in workers.iter_mut() {
        let unowned = ctx.get_unowned();
        worker.push(&driver, &unowned).unwrap();
        let version = unowned.get_api_version(&driver).unwrap();
        assert_eq!(version.version(), 9020);
        assert_eq!(
            CurrentContext::get_device(&driver, worker).unwrap(),
            Device::new(0)
        );
        worker.pop().unwrap();
    }

    let stale = ctx.get_unowned();
    let mut holdout = ContextStack::new();
    holdout.push(&driver, &stale).unwrap();
    ctx.destroy(&mut driver, &mut main_stack).unwrap();

    assert_eq!(
        stale.get_api_version(&driver).unwrap_err(),
        CudaError::InvalidContext
    );
    // The holdout stack's top entry now dangles; ambient operations
    // through it report the invalid context.
    assert_eq!(
        CurrentContext::get_flags(&driver, &holdout).unwrap_err(),
        CudaError::InvalidContext
    );
    // Re-installing the stale handle anywhere is refused outright.
    let mut after = ContextStack::new();
    assert_eq!(
        after.push(&driver, &stale).unwrap_err(),
        CudaError::InvalidContext
    );
    assert_eq!(after.depth(), 0);
}

#[test]
fn destroy_removes_the_context_from_the_calling_thread_top() {
    let mut driver = DriverModel::new(9020, 0, 0);
    let mut stack = ContextStack::new();
    let ctx = Context::create_and_push(&mut driver, &mut stack, default_flags(), Device::new(0))
        .unwrap();
    assert_eq!(stack.depth(), 1);
    ctx.destroy(&mut driver, &mut stack).unwrap();
    assert_eq!(stack.depth(), 0);
}

#[test]
fn handles_stay_distinct_across_contexts() {
    let mut driver = DriverModel::new(9020, 0, 0);
    let mut stack = ContextStack::new();
    let first = Context::create_and_push(&mut driver, &mut stack, default_flags(), Device::new(0))
        .unwrap();
    let second = Context::create_and_push(&mut driver, &mut stack, default_flags(), Device::new(1))
        .unwrap();
    assert_ne!(first.get_inner(), second.get_inner());

    second.destroy(&mut driver, &mut stack).unwrap();
    // The first context is untouched by the second one's destruction.
    assert_eq!(first.get_api_version(&driver).unwrap().version(), 9020);
}
