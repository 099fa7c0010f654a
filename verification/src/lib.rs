//! A minimal single-threaded cooperative task executor with a pluggable
//! wake-notification backend.
//!
//! Tasks are units of deferred work polled to completion by an [`Executor`].
//! Each task owns a [`Waker`] bound to its numeric id; invoking the waker
//! sends the id through the chosen backend, and the scheduling loop picks it
//! up on a later pass and re-polls the parked task.

use vstd::prelude::*;

mod admission;
pub mod arena;
pub mod backend;
pub mod executor;
pub mod sync_crossbeam;
pub mod task;
pub mod tls_unsafe;

verus! {

/// The outcome of one poll step of a task: either the task is finished, or it
/// has parked itself and will be re-polled after its waker fires.
#[derive(Clone, Copy, PartialEq, Eq, Structural, Debug)]
pub enum PollOutcome {
    Pending,
    Ready,
}

/// The sole error of this library: a handle outlived its [`Executor`], so the
/// spawned work has nowhere to go.
#[derive(Clone, Copy, PartialEq, Eq, Structural, Debug)]
pub struct Shutdown;

} // verus!
