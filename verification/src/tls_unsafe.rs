//! The thread-confined wake backend: a queue local to the executor's thread,
//! with no synchronization at all.  It offers the same interface as the
//! cross-thread backend but none of its guarantees: every push must originate
//! on the executor's own thread.  The sender cannot leave that thread (it is
//! not sendable), so the confinement holds by construction.

use vstd::prelude::*;

use crate::backend::{ExecutorParams, WakeReceiver, WakeSender};

use std::cell::RefCell;
use std::collections::VecDeque;
use std::rc::Rc;

verus! {

/// The sending half of the thread-confined backend.  Clones share the same
/// local queue as the receiver they were paired with.
#[verifier::external_body]
pub struct Sender {
    inner: Rc<RefCell<VecDeque<u64>>>,
}

/// The receiving half of the thread-confined backend.  When it is destroyed,
/// its unconsumed backlog dies with the shared queue once the last sender
/// clone is gone; a new pair starts from an empty queue of its own.
#[verifier::external_body]
pub struct Receiver {
    inner: Rc<RefCell<VecDeque<u64>>>,
}

/// Relies on `Rc::new`, `RefCell::new` and `VecDeque::new`: one fresh local
/// queue shared by exactly this sender and receiver.
#[verifier::external_body]
fn local_pair() -> (p: (Sender, Receiver)) {
    let q: Rc<RefCell<VecDeque<u64>>> = Rc::new(RefCell::new(VecDeque::new()));
    (Sender { inner: q.clone() }, Receiver { inner: q })
}

/// Relies on `Rc::clone`: another sender over the same local queue.
#[verifier::external_body]
fn local_sender_clone(s: &Sender) -> (r: Sender) {
    Sender { inner: s.inner.clone() }
}

/// Relies on `RefCell::borrow_mut` and `VecDeque::push_back`: appends the id
/// at the back of the local queue.
#[verifier::external_body]
fn local_push(s: &Sender, id: u64) {
    s.inner.borrow_mut().push_back(id);
}

/// Relies on `RefCell::borrow_mut` and `VecDeque::pop_front`: removes and
/// returns the oldest pending id, or `None` when no wake is pending.
#[verifier::external_body]
fn local_pop(r: &mut Receiver) -> (res: Option<u64>) {
    r.inner.borrow_mut().pop_front()
}

impl Clone for Sender {
    fn clone(&self) -> (r: Self) {
        local_sender_clone(self)
    }
}

impl WakeSender for Sender {
    fn push(&self, id: u64) {
        local_push(self, id);
    }
}

impl WakeReceiver for Receiver {
    fn pop(&mut self) -> Option<u64> {
        local_pop(self)
    }
}

/// The thread-confined backend choice: wake delivery through an
/// unsynchronized queue pinned to one thread, trading cross-thread safety
/// for avoiding all synchronization overhead.
pub struct TlsUnsafeImpl;

impl ExecutorParams for TlsUnsafeImpl {
    type WakeSender = Sender;

    type WakeReceiver = Receiver;

    fn pair() -> (Self::WakeSender, Self::WakeReceiver) {
        local_pair()
    }
}

} // verus!
