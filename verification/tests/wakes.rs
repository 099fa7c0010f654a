use std::cell::{Cell, RefCell};
use std::rc::Rc;

use futures_sync_bench::executor::{Executor, PollContext};
use futures_sync_bench::task::{TaskFuture, Waker};
use futures_sync_bench::tls_unsafe::TlsUnsafeImpl;
use futures_sync_bench::PollOutcome;

type WakerCell = Rc<RefCell<Option<Waker<TlsUnsafeImpl>>>>;

struct DupChild {
    polls: Rc<Cell<u32>>,
    my_waker: WakerCell,
    root_waker: WakerCell,
}

impl TaskFuture<TlsUnsafeImpl> for DupChild {
    fn poll(&mut self, cx: &PollContext<TlsUnsafeImpl>) -> PollOutcome {
        self.polls.set(self.polls.get() + 1);
        *self.my_waker.borrow_mut() = Some(cx.waker().clone());
        self.root_waker.borrow().as_ref().unwrap().wake();
        PollOutcome::Pending
    }
}

struct DupRoot {
    step: u32,
    child_polls: Rc<Cell<u32>>,
    child_polls_seen: Rc<Cell<u32>>,
    child_waker: WakerCell,
    root_waker: WakerCell,
}

impl TaskFuture<TlsUnsafeImpl> for DupRoot {
    fn poll(&mut self, cx: &PollContext<TlsUnsafeImpl>) -> PollOutcome {
        match self.step {
            0 => {
                *self.root_waker.borrow_mut() = Some(cx.waker().clone());
                cx.handle()
                    .spawn_local(DupChild {
                        polls: self.child_polls.clone(),
                        my_waker: self.child_waker.clone(),
                        root_waker: self.root_waker.clone(),
                    })
                    .unwrap();
                self.step = 1;
                PollOutcome::Pending
            }
            1 => {
                // Two wake events for the child before its next real poll.
                self.child_waker.borrow().as_ref().unwrap().wake();
                self.child_waker.borrow().as_ref().unwrap().wake();
                self.step = 2;
                PollOutcome::Pending
            }
            _ => {
                self.child_polls_seen.set(self.child_polls.get());
                PollOutcome::Ready
            }
        }
    }
}

#[test]
fn duplicate_wakes_cause_one_re_poll() {
    let child_polls = Rc::new(Cell::new(0));
    let child_polls_seen = Rc::new(Cell::new(0));
    let child_waker: WakerCell = Rc::new(RefCell::new(None));
    let root_waker: WakerCell = Rc::new(RefCell::new(None));
    let mut ex: Executor<TlsUnsafeImpl> = Executor::new();
    let r = ex.run_until(Box::new(DupRoot {
        step: 0,
        child_polls: child_polls.clone(),
        child_polls_seen: child_polls_seen.clone(),
        child_waker,
        root_waker,
    }));
    assert_eq!(r, Ok(()));
    // The child was polled once when admitted and exactly once for the two
    // duplicate wake events: never twice, and never zero times.
    assert_eq!(child_polls_seen.get(), 2);
    assert_eq!(child_polls.get(), 2);
}

#[test]
fn stale_wake_for_unknown_id_is_ignored() {
    // A wake delivered for an id that was never allocated (or was freed
    // long ago) must change nothing: the executor still runs normally.
    let polls = Rc::new(Cell::new(0));
    let mut ex: Executor<TlsUnsafeImpl> = Executor::new();
    ex.admit_wake(42);
    let r = ex.run_until(Box::new(DupChildFree { polls: polls.clone() }));
    assert_eq!(r, Ok(()));
    assert_eq!(polls.get(), 1);
}

struct DupChildFree {
    polls: Rc<Cell<u32>>,
}

impl TaskFuture<TlsUnsafeImpl> for DupChildFree {
    fn poll(&mut self, _cx: &PollContext<TlsUnsafeImpl>) -> PollOutcome {
        self.polls.set(self.polls.get() + 1);
        PollOutcome::Ready
    }
}
