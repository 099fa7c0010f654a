//! Tasks and wakers: a task pairs a type-erased, never-failing unit of
//! deferred work with a numeric id and the waker bound to that id.

use vstd::prelude::*;

use crate::PollOutcome;
use crate::backend::{ExecutorParams, WakeSender};
use crate::executor::PollContext;

verus! {

/// A wake handle bound to exactly one backend sender and one task id.
/// Invoking it performs only `sender.push(id)`: all rescheduling logic lives
/// in the executor, so waking is cheap even from inside another task's poll.
#[verifier::reject_recursive_types(P)]
pub struct Waker<P: ExecutorParams> {
    sender: P::WakeSender,
    id: u64,
}

impl<P: ExecutorParams> Clone for Waker<P> {
    /// A clone wakes the same task through the same backend.
    fn clone(&self) -> (w: Self)
        ensures
            w.id_spec() == self.id_spec(),
    {
        Waker { sender: self.sender.clone(), id: self.id }
    }
}

impl<P: ExecutorParams> Waker<P> {
    /// The id this waker re-announces to the backend.
    pub closed spec fn id_spec(&self) -> u64 {
        self.id
    }

    pub fn new(sender: P::WakeSender, id: u64) -> (w: Waker<P>)
        ensures
            w.id_spec() == id,
    {
        Waker { sender, id }
    }

    pub fn id(&self) -> (r: u64)
        ensures
            r == self.id_spec(),
    {
        self.id
    }

    /// Record with the backend that this waker's task should be re-polled.
    pub fn wake(&self) {
        self.sender.push(self.id);
    }
}

/// One unit of deferred work, pollable to pending or ready.  Completion
/// carries no payload and there is no failure channel: a future structurally
/// cannot report an error.  Implementors may hold an executor handle (or use
/// the one in the context) so that being polled can itself spawn more work.
pub trait TaskFuture<P: ExecutorParams> {
    fn poll(&mut self, cx: &PollContext<P>) -> PollOutcome;
}

/// The scheduler's wrapper around one future: the future itself, its id, and
/// the waker bound to that id.  A live task is owned by exactly one place at
/// a time: the admission queue, the run queue, or its arena slot.
#[verifier::reject_recursive_types(P)]
pub struct Task<P: ExecutorParams> {
    id: u64,
    fut: Box<dyn TaskFuture<P>>,
    waker: Waker<P>,
}

impl<P: ExecutorParams> Task<P> {
    /// The numeric id of the task's arena slot.
    pub closed spec fn slot_id(&self) -> u64 {
        self.id
    }

    /// A well-formed task has a waker bound to the task's own id, so a
    /// fired waker names the right slot.
    pub closed spec fn wf(&self) -> bool {
        self.waker.id_spec() == self.id
    }

    pub fn new(id: u64, fut: Box<dyn TaskFuture<P>>, waker: Waker<P>) -> (t: Task<P>)
        requires
            waker.id_spec() == id,
        ensures
            t.slot_id() == id,
            t.wf(),
    {
        Task { id, fut, waker }
    }

    pub fn id(&self) -> (r: u64)
        ensures
            r == self.slot_id(),
    {
        self.id
    }

    /// A fresh clone of the task's waker, for building a poll context.
    pub fn waker(&self) -> (w: Waker<P>)
        ensures
            self.wf() ==> w.id_spec() == self.slot_id(),
    {
        self.waker.clone()
    }

    /// One poll step of the wrapped future.  The id and waker survive the
    /// step, so a pending task can be parked back under the slot it came
    /// from.
    pub fn poll(&mut self, cx: &PollContext<P>) -> (o: PollOutcome)
        ensures
            final(self).slot_id() == old(self).slot_id(),
            old(self).wf() ==> final(self).wf(),
    {
        self.fut.poll(cx)
    }
}

} // verus!
