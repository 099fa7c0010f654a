//! The task arena: a recyclable-index store mapping small integer ids to
//! optional parked tasks, confined to the executor's thread.
//!
//! A slot is reserved (present, empty) between id allocation and first
//! storage, occupied while a task is parked in it, and vacant after it is
//! freed.  Vacant slots are kept on a free list and their ids are reused.

use vstd::prelude::*;

use crate::backend::ExecutorParams;
use crate::task::Task;

verus! {

/// The state of one arena slot.
#[verifier::reject_recursive_types(P)]
pub enum Slot<P: ExecutorParams> {
    /// Freed; its index sits on the free list, ready for reuse.
    Vacant,
    /// Id handed out, no task parked: the gap between `reserve` and `store`,
    /// and the state while the task is out being polled.
    Reserved,
    /// A task is parked here.
    Occupied(Task<P>),
}

/// A recyclable-index store of parked tasks.  `reserve` allocates an id in
/// amortized constant time, reusing freed slots; `store`, `take` and `free`
/// work on one slot each and leave every other slot untouched.
#[verifier::reject_recursive_types(P)]
pub struct Arena<P: ExecutorParams> {
    slots: Vec<Slot<P>>,
    free: Vec<u64>,
}

impl<P: ExecutorParams> Arena<P> {
    /// An id is live while it is handed out and not yet freed: its slot is
    /// reserved or occupied.
    pub closed spec fn live(&self, id: u64) -> bool {
        id < self.slots@.len() && !(self.slots@[id as int] is Vacant)
    }

    /// An id is stored while a task is parked under it.
    pub closed spec fn stored(&self, id: u64) -> bool {
        id < self.slots@.len() && self.slots@[id as int] is Occupied
    }

    /// The task parked under `id`.
    pub closed spec fn task_at(&self, id: u64) -> Task<P>
        recommends
            self.stored(id),
    {
        self.slots@[id as int]->Occupied_0
    }

    /// The free list holds exactly the vacant slot indices, each once.
    pub closed spec fn wf(&self) -> bool {
        &&& forall|k: int|
            0 <= k < self.free@.len() ==> (#[trigger] self.free@[k]) < self.slots@.len()
                && self.slots@[self.free@[k] as int] is Vacant
        &&& forall|j: int|
            0 <= j < self.slots@.len() && self.slots@[j] is Vacant ==> self.free@.contains(
                j as u64,
            )
        &&& forall|k1: int, k2: int|
            0 <= k1 < self.free@.len() && 0 <= k2 < self.free@.len() && k1 != k2 ==> #[trigger] self.free@[k1]
                != #[trigger] self.free@[k2]
    }

    /// An empty arena: no id is live.
    pub fn new() -> (a: Arena<P>)
        ensures
            a.wf(),
            forall|j: u64| !a.live(j),
            forall|j: u64| !a.stored(j),
    {
        Arena { slots: Vec::new(), free: Vec::new() }
    }

    /// Allocate a fresh id with an empty slot, reusing a freed slot when one
    /// exists.  The id was not live before; it is live and empty now; no
    /// other slot changes.
    pub fn reserve(&mut self) -> (id: u64)
        requires
            old(self).wf(),
        ensures
            final(self).wf(),
            !old(self).live(id),
            final(self).live(id),
            !final(self).stored(id),
            forall|j: u64| j != id ==> final(self).live(j) == old(self).live(j),
            forall|j: u64| j != id ==> final(self).stored(j) == old(self).stored(j),
            forall|j: u64|
                j != id && old(self).stored(j) ==> final(self).task_at(j) == old(self).task_at(j),
    {
        match self.free.pop() {
            Some(id) => {
                let n = self.slots.len();
                proof {
                    assert(old(self).free@[old(self).free@.len() - 1] == id);
                    assert(id < n as u64);
                }
                let i = id as usize;
                self.slots[i] = Slot::Reserved;
                proof {
                    assert forall|j: int|
                        0 <= j < self.slots@.len() && self.slots@[j] is Vacant implies self.free@.contains(
                        j as u64,
                    ) by {
                        assert(old(self).slots@[j] is Vacant);
                        let k = choose|k: int|
                            0 <= k < old(self).free@.len() && old(self).free@[k] == j as u64;
                        assert(k < old(self).free@.len() - 1);
                        assert(self.free@[k] == j as u64);
                    }
                }
                id
            },
            None => {
                let id = self.slots.len() as u64;
                self.slots.push(Slot::Reserved);
                proof {
                    assert forall|j: int|
                        0 <= j < self.slots@.len() && self.slots@[j] is Vacant implies self.free@.contains(
                        j as u64,
                    ) by {
                        assert(old(self).slots@[j] is Vacant);
                    }
                }
                id
            },
        }
    }

    /// Park `task` under `id`, filling or overwriting the slot.  A task can
    /// only ever be parked under its own id.
    pub fn store(&mut self, id: u64, task: Task<P>)
        requires
            old(self).wf(),
            old(self).live(id),
            task.slot_id() == id,
        ensures
            final(self).wf(),
            final(self).stored(id),
            final(self).task_at(id) == task,
            forall|j: u64| final(self).live(j) == old(self).live(j),
            forall|j: u64| j != id ==> final(self).stored(j) == old(self).stored(j),
            forall|j: u64|
                j != id && old(self).stored(j) ==> final(self).task_at(j) == old(self).task_at(j),
    {
        let n = self.slots.len();
        proof {
            assert(id < n as u64);
        }
        let i = id as usize;
        self.slots[i] = Slot::Occupied(task);
    }

    /// Whether a task is currently parked under `id`: the guard the scheduler
    /// applies to every wake event before claiming a task, so that a stale or
    /// duplicate wake is ignored rather than trusted.
    pub fn is_stored(&self, id: u64) -> (r: bool)
        ensures
            r == self.stored(id),
    {
        let n = self.slots.len();
        if id < (n as u64) {
            let i = id as usize;
            match &self.slots[i] {
                Slot::Occupied(_) => true,
                _ => false,
            }
        } else {
            false
        }
    }

    /// Remove and return the task parked under `id`, leaving the slot
    /// reserved (present, empty).  Taking the same id again without an
    /// intervening `store` is impossible: the slot is no longer stored.
    pub fn take(&mut self, id: u64) -> (t: Task<P>)
        requires
            old(self).wf(),
            old(self).stored(id),
        ensures
            final(self).wf(),
            t == old(self).task_at(id),
            final(self).live(id),
            !final(self).stored(id),
            forall|j: u64| final(self).live(j) == old(self).live(j),
            forall|j: u64| j != id ==> final(self).stored(j) == old(self).stored(j),
            forall|j: u64|
                j != id && old(self).stored(j) ==> final(self).task_at(j) == old(self).task_at(j),
    {
        let n = self.slots.len();
        proof {
            assert(id < n as u64);
        }
        let i = id as usize;
        let mut slot = Slot::Reserved;
        core::mem::swap(&mut self.slots[i], &mut slot);
        match slot {
            Slot::Occupied(t) => t,
            _ => vstd::pervasive::unreached(),
        }
    }

    /// Release the slot entirely; the id stops being live and may be handed
    /// out again by a later `reserve`.
    pub fn free(&mut self, id: u64)
        requires
            old(self).wf(),
            old(self).live(id),
        ensures
            final(self).wf(),
            !final(self).live(id),
            !final(self).stored(id),
            forall|j: u64| j != id ==> final(self).live(j) == old(self).live(j),
            forall|j: u64| j != id ==> final(self).stored(j) == old(self).stored(j),
            forall|j: u64|
                j != id && old(self).stored(j) ==> final(self).task_at(j) == old(self).task_at(j),
    {
        let n = self.slots.len();
        proof {
            assert(id < n as u64);
            assert forall|k: int| 0 <= k < self.free@.len() implies #[trigger] self.free@[k]
                != id by {
                assert(self.slots@[self.free@[k] as int] is Vacant);
            }
        }
        let i = id as usize;
        self.slots[i] = Slot::Vacant;
        self.free.push(id);
        proof {
            assert forall|j: int|
                0 <= j < self.slots@.len() && self.slots@[j] is Vacant implies self.free@.contains(
                j as u64,
            ) by {
                if j == id as int {
                    assert(self.free@[self.free@.len() - 1] == id);
                } else {
                    assert(old(self).slots@[j] is Vacant);
                    let k = choose|k: int|
                        0 <= k < old(self).free@.len() && old(self).free@[k] == j as u64;
                    assert(self.free@[k] == j as u64);
                }
            }
        }
    }
}

} // verus!
