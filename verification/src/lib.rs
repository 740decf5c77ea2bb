//! A cooperative, tick-driven coroutine scheduler: tasks own resumable
//! computations that suspend for a number of frames, for a span of time,
//! or until a predicate clears or another task finishes, and resume
//! transparently on a later tick. The scheduler resolves chained
//! suspensions within a single tick, isolates a fault to the task that
//! raised it, and dispatches completion listeners exactly once.
//!
//! Everything the host must actually perform — invoking listeners,
//! emitting the finished notification, detaching executors, reporting
//! diagnostics — comes back out of the library as [`coroutine::Event`]
//! values, in the order the host must honor them.

use vstd::prelude::*;

pub mod builder;
pub mod coroutine;
pub mod laws;
pub mod prelude;
pub mod routine;
pub mod scheduler;
pub mod start_async_task;
pub mod start_coroutine;
pub mod yielding;

verus! {

/// A completion value produced by a coroutine, delivered to its listeners.
///
/// The host framework marshals its own variant values into and out of this
/// plain representation at the boundary; an engine value of any other kind
/// travels as the token under which the host keeps it, and rounds through
/// the scheduler unchanged.
#[derive(Clone, Copy, Debug, PartialEq, Eq, Structural)]
pub enum Value {
    Nil,
    Int(i64),
    Bool(bool),
    /// The token of a host-kept engine value the library does not model.
    Opaque(u64),
}

} // verus!
