//! Stack push/pop/set-current behavior of the verified model.

use cuda_context::device::Device;
use cuda_context::driver::{CurrentContext, DriverModel};
use cuda_context::error::CudaError;
use cuda_context::flags::ContextFlags;
use cuda_context::handle::{Context, ContextHandle};
use cuda_context::stack::ContextStack;

fn fresh() -> (DriverModel, ContextStack) {
    (DriverModel::new(9020, 0, 0), ContextStack::new())
}

fn create(driver: &mut DriverModel, stack: &mut ContextStack) -> Context {
    let flags = ContextFlags::map_host().union(&ContextFlags::sched_auto());
    Context::create_and_push(driver, stack, flags, Device::new(0)).unwrap()
}

#[test]
fn create_then_pop_leaves_stack_empty() {
    let (mut driver, mut stack) = fresh();
    let _ctx = create(&mut driver, &mut stack);
    assert_eq!(stack.depth(), 1);
    stack.pop().unwrap();
    assert_eq!(stack.depth(), 0);
    assert_eq!(
        CurrentContext::get_current(&stack),
        Err(CudaError::NoContextCurrent)
    );
}

#[test]
fn pop_on_empty_stack_fails() {
    let (_driver, mut stack) = fresh();
    assert_eq!(stack.pop().unwrap_err(), CudaError::NoContextCurrent);
    assert_eq!(stack.depth(), 0);
}

#[test]
fn push_pop_round_trip_preserves_identity() {
    let (mut driver, mut stack) = fresh();
    let ctx = create(&mut driver, &mut stack);
    let popped = stack.pop().unwrap();
    assert_eq!(popped.get_inner(), ctx.get_inner());

    stack.push(&driver, &popped).unwrap();
    let again = stack.pop().unwrap();
    assert_eq!(again.get_inner(), ctx.get_inner());
}

#[test]
fn set_current_pushes_on_empty_stack() {
    let (mut driver, mut stack) = fresh();
    let ctx = create(&mut driver, &mut stack);
    let unowned = stack.pop().unwrap();
    assert_eq!(stack.depth(), 0);

    CurrentContext::set_current(&driver, &mut stack, &unowned).unwrap();
    assert_eq!(stack.depth(), 1);
    assert_eq!(
        CurrentContext::get_current(&stack).unwrap().get_inner(),
        ctx.get_inner()
    );
}

#[test]
fn set_current_replaces_top_on_nonempty_stack() {
    let (mut driver, mut stack) = fresh();
    let first = create(&mut driver, &mut stack);
    let second = create(&mut driver, &mut stack);
    assert_eq!(stack.depth(), 2);

    CurrentContext::set_current(&driver, &mut stack, &first).unwrap();
    assert_eq!(stack.depth(), 2);
    assert_eq!(
        CurrentContext::get_current(&stack).unwrap().get_inner(),
        first.get_inner()
    );

    CurrentContext::set_current(&driver, &mut stack, &second).unwrap();
    assert_eq!(stack.depth(), 2);
    assert_eq!(
        CurrentContext::get_current(&stack).unwrap().get_inner(),
        second.get_inner()
    );
}

#[test]
fn installing_a_stale_handle_is_refused() {
    let (mut driver, mut stack) = fresh();
    let ctx = create(&mut driver, &mut stack);
    let stale = ctx.get_unowned();
    ctx.destroy(&mut driver, &mut stack).unwrap();
    assert_eq!(stack.depth(), 0);

    assert_eq!(
        stack.push(&driver, &stale).unwrap_err(),
        CudaError::InvalidContext
    );
    assert_eq!(stack.depth(), 0);
    assert_eq!(
        CurrentContext::set_current(&driver, &mut stack, &stale).unwrap_err(),
        CudaError::InvalidContext
    );
    assert_eq!(stack.depth(), 0);
}

#[test]
fn push_accepts_both_handle_kinds() {
    let (mut driver, mut stack) = fresh();
    let ctx = create(&mut driver, &mut stack);
    let unowned = ctx.get_unowned();

    stack.push(&driver, &ctx).unwrap();
    stack.push(&driver, &unowned).unwrap();
    assert_eq!(stack.depth(), 3);
    assert_eq!(stack.pop().unwrap().get_inner(), ctx.get_inner());
    assert_eq!(stack.pop().unwrap().get_inner(), ctx.get_inner());
}
