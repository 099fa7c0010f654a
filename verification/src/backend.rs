//! The pluggable wake-notification backend: a connected sender/receiver pair
//! carrying bare task ids from wherever a waker fires back to the scheduling
//! loop.

use vstd::prelude::*;

verus! {

/// The sending half of a wake backend.  `push(id)` records that the task with
/// that id should be re-polled; duplicates are harmless (they cause at most a
/// redundant pending re-poll).  A clone of the sender lives inside every waker
/// the executor hands out, so it must be cheap to clone.
pub trait WakeSender: Sized + Clone {
    fn push(&self, id: u64);
}

/// The receiving half of a wake backend.  `pop` is strictly non-blocking: it
/// yields the next pending wake id, or `None` when no wake is pending.
pub trait WakeReceiver: Sized {
    fn pop(&mut self) -> Option<u64>;
}

/// A backend choice.  `pair()` constructs a connected sender/receiver pair;
/// every id pushed into the sender is meant to come out of the receiver on
/// the executor's thread.
pub trait ExecutorParams: Sized {
    type WakeSender: WakeSender;

    type WakeReceiver: WakeReceiver;

    fn pair() -> (p: (Self::WakeSender, Self::WakeReceiver));
}

} // verus!
