use std::cell::Cell;
use std::rc::Rc;

use futures_sync_bench::arena::Arena;
use futures_sync_bench::backend::ExecutorParams;
use futures_sync_bench::executor::{Executor, PollContext};
use futures_sync_bench::task::{Task, TaskFuture, Waker};
use futures_sync_bench::tls_unsafe::TlsUnsafeImpl;
use futures_sync_bench::PollOutcome;

struct TagFuture {
    tag: u32,
    seen: Rc<Cell<u32>>,
}

impl TaskFuture<TlsUnsafeImpl> for TagFuture {
    fn poll(&mut self, _cx: &PollContext<TlsUnsafeImpl>) -> PollOutcome {
        self.seen.set(self.tag);
        PollOutcome::Ready
    }
}

fn tag_task(id: u64, tag: u32, seen: Rc<Cell<u32>>) -> Task<TlsUnsafeImpl> {
    let (s, _r) = TlsUnsafeImpl::pair();
    Task::new(id, Box::new(TagFuture { tag, seen }), Waker::new(s, id))
}

#[test]
fn arena_reserve_store_take_roundtrip() {
    let seen = Rc::new(Cell::new(0));
    let mut a: Arena<TlsUnsafeImpl> = Arena::new();
    let id = a.reserve();
    assert!(!a.is_stored(id));
    a.store(id, tag_task(id, 7, seen));
    assert!(a.is_stored(id));
    let t = a.take(id);
    assert_eq!(t.id(), id);
    // The slot is empty the moment the task is claimed: a second wake for
    // the same id has nothing left to claim.
    assert!(!a.is_stored(id));
    a.free(id);
}

#[test]
fn arena_ids_unique_among_live() {
    let mut a: Arena<TlsUnsafeImpl> = Arena::new();
    let id0 = a.reserve();
    let id1 = a.reserve();
    let id2 = a.reserve();
    assert!(id0 != id1 && id1 != id2 && id0 != id2);
    a.free(id1);
    let id3 = a.reserve();
    assert_eq!(id3, id1);
    assert!(id3 != id0 && id3 != id2);
}

#[test]
fn arena_freed_id_reused_without_leakage() {
    let seen = Rc::new(Cell::new(0));
    let mut a: Arena<TlsUnsafeImpl> = Arena::new();
    let id = a.reserve();
    a.store(id, tag_task(id, 1, seen.clone()));
    let t = a.take(id);
    drop(t);
    a.free(id);

    // The freed id comes back, and nothing of the first task comes with it.
    let id2 = a.reserve();
    assert_eq!(id2, id);
    assert!(!a.is_stored(id2));

    a.store(id2, tag_task(id2, 2, seen.clone()));
    let mut t2 = a.take(id2);
    let ex: Executor<TlsUnsafeImpl> = Executor::new();
    let (s, _r) = TlsUnsafeImpl::pair();
    let cx = PollContext::new(Waker::new(s, t2.id()), ex.executor());
    assert_eq!(t2.poll(&cx), PollOutcome::Ready);
    assert_eq!(seen.get(), 2);
    a.free(id2);
}
