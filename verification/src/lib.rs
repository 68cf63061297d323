//! Lifecycle and thread-local visibility of accelerator execution contexts.
//!
//! A context is an isolated container for device state: it owns device memory,
//! configuration (cache partitioning, resource limits, scheduling policy) and
//! is bound to a single device. The driver keeps a thread-local stack of
//! contexts; the top of the calling thread's stack is the "current" context
//! and is the implicit target of every configuration call.
//!
//! The driver has no notion of single ownership: the same context may sit on
//! many threads' stacks at once, and destroying it is observable from every
//! thread that still holds a reference. This crate maps that API onto a safe
//! owning / non-owning handle split: an owning `Context` (at most one per live
//! context, destruction goes through it exactly once) and a freely copyable
//! `UnownedContext` with no destruction rights, which may dangle once the
//! owner has destroyed the context; every later use of a dangling handle
//! fails with an explicit error rather than corrupting memory.
//!
//! The driver itself cannot be reasoned about directly, so the crate states
//! its bookkeeping as an explicit state machine and verifies every operation
//! against it. The embedding layer that makes the real native calls
//! interprets each raw outcome (a status code plus out parameters) through
//! the verified functions in `outcome`, so the mapping from raw driver
//! answers into the library's types is proved, not assumed.

pub mod config;
pub mod device;
pub mod driver;
pub mod error;
pub mod flags;
pub mod handle;
pub mod laws;
pub mod outcome;
mod sealed;
pub mod stack;
pub mod version;
