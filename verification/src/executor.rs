//! The executor: owns the admission queue, the task arena and the backend
//! receiver, and runs the scheduling loop.

use vstd::prelude::*;

use crate::admission::{AdmissionHandle, AdmissionQueue};
use crate::arena::Arena;
use crate::backend::{ExecutorParams, WakeReceiver};
use crate::task::{Task, TaskFuture, Waker};
use crate::{PollOutcome, Shutdown};

verus! {

/// The context handed to every poll step: the task's own waker, and a handle
/// through which the poll may itself spawn further tasks.
#[verifier::reject_recursive_types(P)]
pub struct PollContext<P: ExecutorParams> {
    waker: Waker<P>,
    handle: ExecutorHandle<P>,
}

impl<P: ExecutorParams> PollContext<P> {
    /// The waker this context was built around.
    pub closed spec fn waker_spec(&self) -> Waker<P> {
        self.waker
    }

    pub fn new(waker: Waker<P>, handle: ExecutorHandle<P>) -> (cx: PollContext<P>)
        ensures
            cx.waker_spec() == waker,
    {
        PollContext { waker, handle }
    }

    /// The waker bound to the task being polled.
    pub fn waker(&self) -> (w: &Waker<P>)
        ensures
            *w == self.waker_spec(),
    {
        &self.waker
    }

    /// A handle to the running executor, for spawning from inside a poll.
    pub fn handle(&self) -> &ExecutorHandle<P> {
        &self.handle
    }
}

/// A shareable capability to admit new tasks and to check scheduler
/// liveness.  It holds only a non-owning reference to the admission queue,
/// so it observes the destruction of its executor as `Shutdown`.
#[verifier::reject_recursive_types(P)]
pub struct ExecutorHandle<P: ExecutorParams> {
    incoming: AdmissionHandle<P>,
    awakenings: P::WakeSender,
}

impl<P: ExecutorParams> ExecutorHandle<P> {
    /// Admit a boxed future.  The only failure is `Shutdown`: the owning
    /// executor no longer exists.
    pub fn spawn(&self, f: Box<dyn TaskFuture<P>>) -> Result<(), Shutdown> {
        self.incoming.push(f)
    }

    /// Report the same liveness check as `spawn`, without spawning.
    pub fn status(&self) -> Result<(), Shutdown> {
        if self.incoming.alive() {
            Ok(())
        } else {
            Err(Shutdown)
        }
    }

    /// Another handle to the same executor.
    pub fn duplicate(&self) -> ExecutorHandle<P> {
        ExecutorHandle {
            incoming: self.incoming.duplicate(),
            awakenings: self.awakenings.clone(),
        }
    }

    /// Admit a future without boxing at the call site.
    pub fn spawn_local<F: TaskFuture<P> + 'static>(&self, f: F) -> Result<(), Shutdown> {
        self.spawn(Box::new(f))
    }
}

/// The scheduler: owns the admission queue, the run queue, the task arena
/// and the backend receiver, and polls tasks to completion.
#[verifier::reject_recursive_types(P)]
pub struct Executor<P: ExecutorParams> {
    run_queue: std::collections::VecDeque<Task<P>>,
    incoming: AdmissionQueue<P>,
    waiting: Arena<P>,
    awakenings: P::WakeReceiver,
    aw_sender: P::WakeSender,
}

impl<P: ExecutorParams> Executor<P> {
    /// The executor's steady-state invariant.  Every task on the run queue
    /// is well formed and holds a live, empty arena slot of its own; run
    /// queue ids are pairwise distinct; and every task parked in the arena
    /// is well formed and parked under its own id.
    pub closed spec fn wf(&self) -> bool {
        &&& self.waiting.wf()
        &&& forall|k: int|
            0 <= k < self.run_queue@.len() ==> (#[trigger] self.run_queue@[k]).wf()
                && self.waiting.live(self.run_queue@[k].slot_id()) && !self.waiting.stored(
                self.run_queue@[k].slot_id(),
            )
        &&& forall|k1: int, k2: int|
            0 <= k1 < self.run_queue@.len() && 0 <= k2 < self.run_queue@.len() && k1 != k2
                ==> (#[trigger] self.run_queue@[k1]).slot_id()
                != (#[trigger] self.run_queue@[k2]).slot_id()
        &&& forall|id: u64|
            #[trigger] self.waiting.stored(id) ==> self.waiting.task_at(id).wf()
                && self.waiting.task_at(id).slot_id() == id
    }

    /// The tasks currently sitting in the run queue, oldest first.
    pub closed spec fn queued(&self) -> Seq<Task<P>> {
        self.run_queue@
    }

    /// Whether a task is currently parked in the arena under `id`.
    pub closed spec fn parked(&self, id: u64) -> bool {
        self.waiting.stored(id)
    }

    /// The task parked under `id`.
    pub closed spec fn parked_task(&self, id: u64) -> Task<P>
        recommends
            self.parked(id),
    {
        self.waiting.task_at(id)
    }

    /// Whether `id` is currently handed out: its slot exists, parked or
    /// empty, and cannot be given to another task until it is freed.
    pub closed spec fn live(&self, id: u64) -> bool {
        self.waiting.live(id)
    }

    /// A live task is owned by exactly one place at a time.  For the two
    /// places the executor itself manages: a task on the run queue is never
    /// simultaneously parked in the arena, and no id appears twice on the
    /// run queue, so no scheduling pass can hold two claims on one task.
    pub proof fn lemma_owner_exclusive(&self, k: int)
        requires
            self.wf(),
            0 <= k < self.queued().len(),
        ensures
            !self.parked(self.queued()[k].slot_id()),
            forall|k2: int|
                0 <= k2 < self.queued().len() && k2 != k ==> (#[trigger] self.queued()[k2]).slot_id()
                    != self.queued()[k].slot_id(),
    {
    }

    /// A fresh executor over a fresh backend pair: empty queues, empty
    /// arena.
    pub fn new() -> (e: Executor<P>)
        ensures
            e.wf(),
            e.queued().len() == 0,
            forall|id: u64| !e.parked(id),
    {
        let (s, r) = P::pair();
        Executor {
            run_queue: std::collections::VecDeque::new(),
            incoming: AdmissionQueue::new(),
            waiting: Arena::new(),
            awakenings: r,
            aw_sender: s,
        }
    }

    /// A handle through which tasks can be spawned into this executor, from
    /// outside or from inside a running poll.
    pub fn executor(&self) -> ExecutorHandle<P> {
        ExecutorHandle {
            incoming: self.incoming.handle(),
            awakenings: self.aw_sender.clone(),
        }
    }

    /// Turn one admitted future into a task: reserve a fresh id, bind a
    /// waker to it, and queue the task for its first poll.  The id is
    /// reserved before the task can run, so a waker fired during the task's
    /// very first poll already has a valid target.
    fn enroll(&mut self, fut: Box<dyn TaskFuture<P>>) -> (id: u64)
        requires
            old(self).wf(),
        ensures
            final(self).wf(),
            old(self).queued().is_prefix_of(final(self).queued()),
            final(self).queued().len() == old(self).queued().len() + 1,
            final(self).queued().last().slot_id() == id,
    {
        let id = self.waiting.reserve();
        let waker = Waker::new(self.aw_sender.clone(), id);
        let task = Task::new(id, fut, waker);
        self.run_queue.push_back(task);
        id
    }

    /// Drain the shared admission queue completely into the run queue,
    /// preserving spawn order.  Nothing else runs on this thread while the
    /// drain does, so the queue only shrinks; the budget exists to give the
    /// loop a termination measure and cannot run out first.
    fn drain_admissions(&mut self)
        requires
            old(self).wf(),
        ensures
            final(self).wf(),
            old(self).queued().is_prefix_of(final(self).queued()),
    {
        let mut budget: u64 = u64::MAX;
        while budget > 0
            invariant
                self.wf(),
                old(self).queued().is_prefix_of(self.queued()),
            decreases budget,
        {
            match self.incoming.pop() {
                Some(fut) => {
                    let _id: u64 = self.enroll(fut);
                    budget = budget - 1;
                },
                None => {
                    budget = 0;
                },
            }
        }
    }

    /// Deliver one wake event, exactly as the scheduling loop does for each
    /// id popped off the backend: claim the task parked under `id` and queue
    /// it for execution.  A wake for an id with no parked task — stale,
    /// duplicate, or never allocated — changes nothing.  In particular a
    /// second delivery for an unchanged id before its next real poll is
    /// ignored, so one parked task is claimed at most once and is never
    /// double-polled from a single parking.
    pub fn admit_wake(&mut self, id: u64)
        requires
            old(self).wf(),
        ensures
            final(self).wf(),
            old(self).parked(id) ==> final(self).queued() == old(self).queued().push(
                old(self).parked_task(id),
            ) && !final(self).parked(id),
            !old(self).parked(id) ==> *final(self) == *old(self),
    {
        if self.waiting.is_stored(id) {
            let t = self.waiting.take(id);
            self.run_queue.push_back(t);
        }
    }

    /// Drain the backend receiver completely (repeated non-blocking pop),
    /// claiming each woken task in delivery order.  As with admissions, the
    /// budget is only a termination measure: `pop` is non-blocking, and a
    /// wake left behind by an exhausted budget is picked up next pass.
    fn drain_wakes(&mut self)
        requires
            old(self).wf(),
        ensures
            final(self).wf(),
            old(self).queued().is_prefix_of(final(self).queued()),
    {
        let mut budget: u64 = u64::MAX;
        while budget > 0
            invariant
                self.wf(),
                old(self).queued().is_prefix_of(self.queued()),
            decreases budget,
        {
            match self.awakenings.pop() {
                Some(id) => {
                    self.admit_wake(id);
                    budget = budget - 1;
                },
                None => {
                    budget = 0;
                },
            }
        }
    }

    /// Settle one poll outcome for a task that is out of the arena on a
    /// reserved slot of its own: a pending task is parked back under its id,
    /// ready to be claimed by the next wake; a completed task has its slot
    /// freed, the id ready for reuse.  The run queue and every other slot
    /// are untouched either way.
    fn settle(&mut self, task: Task<P>, outcome: PollOutcome)
        requires
            old(self).wf(),
            task.wf(),
            old(self).live(task.slot_id()),
            !old(self).parked(task.slot_id()),
            forall|k: int|
                0 <= k < old(self).queued().len() ==> (#[trigger] old(self).queued()[k]).slot_id()
                    != task.slot_id(),
        ensures
            final(self).wf(),
            final(self).queued() == old(self).queued(),
            outcome == PollOutcome::Pending ==> final(self).parked(task.slot_id())
                && final(self).parked_task(task.slot_id()) == task
                && final(self).live(task.slot_id()),
            outcome == PollOutcome::Ready ==> !final(self).live(task.slot_id())
                && !final(self).parked(task.slot_id()),
            forall|j: u64| j != task.slot_id() ==> final(self).live(j) == old(self).live(j),
            forall|j: u64| j != task.slot_id() ==> final(self).parked(j) == old(self).parked(j),
            forall|j: u64|
                j != task.slot_id() && old(self).parked(j) ==> final(self).parked_task(j)
                    == old(self).parked_task(j),
    {
        proof {
            assert forall|k: int|
                0 <= k < self.run_queue@.len() implies (#[trigger] self.run_queue@[k]).slot_id()
                != task.slot_id() by {
                assert(old(self).queued()[k].slot_id() != task.slot_id());
            }
        }
        let tid = task.id();
        match outcome {
            PollOutcome::Pending => {
                self.waiting.store(tid, task);
            },
            PollOutcome::Ready => {
                self.waiting.free(tid);
            },
        }
    }

    /// Spawn `f` as the root task, capturing its id as the sole termination
    /// signal, and run the scheduling loop until the root completes.  Each
    /// pass drains admissions, then wake events, then polls the run queue
    /// empty; a completed task's slot is freed on the spot, and a pending
    /// task is parked back under its id.  The loop never blocks between
    /// passes: it busy-polls, trading CPU for minimal wake-to-poll latency.
    ///
    /// When the root completes, any work still admitted, queued or parked is
    /// abandoned without notice and released only by ordinary teardown of
    /// the executor's owned state.  The call returns success when the root
    /// completes; the root's id is minted inside the call, so the fact that
    /// success frees exactly that slot is carried by `settle`'s contract
    /// rather than stated here over a name no caller could supply.  The
    /// error value exists only because the busy-poll carries a finite pass
    /// budget, which no real execution can exhaust.
    pub fn run_until(&mut self, f: Box<dyn TaskFuture<P>>) -> (r: Result<(), Shutdown>)
        requires
            old(self).wf(),
        ensures
            final(self).wf(),
    {
        // Admissions that arrived before this invocation keep their place
        // ahead of the root.
        self.drain_admissions();
        let root = self.enroll(f);
        // The pass budget gives the busy-poll a termination measure; at one
        // pass per nanosecond it outlasts five centuries, so exhausting it is
        // not a behaviour this library's callers can observe.
        let mut passes: u64 = u64::MAX;
        while passes > 0
            invariant
                self.wf(),
            decreases passes,
        {
            passes = passes - 1;
            self.drain_admissions();
            self.drain_wakes();
            while self.run_queue.len() > 0
                invariant
                    self.wf(),
                decreases self.run_queue@.len(),
            {
                match self.run_queue.pop_front() {
                    Some(task) => {
                        let mut task = task;
                        let tid = task.id();
                        let cx = PollContext::new(task.waker(), self.executor());
                        let outcome = task.poll(&cx);
                        let done = outcome == PollOutcome::Ready;
                        self.settle(task, outcome);
                        if done && tid == root {
                            return Ok(());
                        }
                    },
                    None => {
                        proof {
                            assert(false);
                        }
                    },
                }
            }
        }
        Err(Shutdown)
    }
}

} // verus!
