use std::cell::{Cell, RefCell};
use std::rc::Rc;

use futures_sync_bench::executor::{Executor, PollContext};
use futures_sync_bench::task::{TaskFuture, Waker};
use futures_sync_bench::tls_unsafe::TlsUnsafeImpl;
use futures_sync_bench::PollOutcome;

type WakerCell = Rc<RefCell<Option<Waker<TlsUnsafeImpl>>>>;

struct CompleteNow {
    polls: Rc<Cell<u32>>,
}

impl TaskFuture<TlsUnsafeImpl> for CompleteNow {
    fn poll(&mut self, _cx: &PollContext<TlsUnsafeImpl>) -> PollOutcome {
        self.polls.set(self.polls.get() + 1);
        PollOutcome::Ready
    }
}

struct ChildOnce {
    polls: Rc<Cell<u32>>,
    root_waker: WakerCell,
}

impl TaskFuture<TlsUnsafeImpl> for ChildOnce {
    fn poll(&mut self, _cx: &PollContext<TlsUnsafeImpl>) -> PollOutcome {
        self.polls.set(self.polls.get() + 1);
        self.root_waker.borrow().as_ref().unwrap().wake();
        PollOutcome::Ready
    }
}

struct RootSpawnsChild {
    spawned: bool,
    polls: Rc<Cell<u32>>,
    child_polls: Rc<Cell<u32>>,
    root_waker: WakerCell,
}

impl TaskFuture<TlsUnsafeImpl> for RootSpawnsChild {
    fn poll(&mut self, cx: &PollContext<TlsUnsafeImpl>) -> PollOutcome {
        self.polls.set(self.polls.get() + 1);
        if !self.spawned {
            *self.root_waker.borrow_mut() = Some(cx.waker().clone());
            cx.handle()
                .spawn_local(ChildOnce {
                    polls: self.child_polls.clone(),
                    root_waker: self.root_waker.clone(),
                })
                .unwrap();
            self.spawned = true;
            PollOutcome::Pending
        } else {
            PollOutcome::Ready
        }
    }
}

#[test]
fn scenario_a_root_completes_on_first_poll() {
    let polls = Rc::new(Cell::new(0));
    let mut ex: Executor<TlsUnsafeImpl> = Executor::new();
    let r = ex.run_until(Box::new(CompleteNow { polls: polls.clone() }));
    assert_eq!(r, Ok(()));
    assert_eq!(polls.get(), 1);
}

#[test]
fn scenario_b_child_wakes_root() {
    let root_polls = Rc::new(Cell::new(0));
    let child_polls = Rc::new(Cell::new(0));
    let root_waker: WakerCell = Rc::new(RefCell::new(None));
    let mut ex: Executor<TlsUnsafeImpl> = Executor::new();
    let r = ex.run_until(Box::new(RootSpawnsChild {
        spawned: false,
        polls: root_polls.clone(),
        child_polls: child_polls.clone(),
        root_waker,
    }));
    assert_eq!(r, Ok(()));
    assert_eq!(root_polls.get(), 2);
    assert_eq!(child_polls.get(), 1);
}

#[test]
fn spawn_before_run_until_keeps_its_place() {
    let early_polls = Rc::new(Cell::new(0));
    let root_polls = Rc::new(Cell::new(0));
    let mut ex: Executor<TlsUnsafeImpl> = Executor::new();
    let h = ex.executor();
    h.spawn_local(CompleteNow { polls: early_polls.clone() }).unwrap();
    let r = ex.run_until(Box::new(CompleteNow { polls: root_polls.clone() }));
    assert_eq!(r, Ok(()));
    assert_eq!(early_polls.get(), 1);
    assert_eq!(root_polls.get(), 1);
}
