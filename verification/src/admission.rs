//! The shared admission queue: an ordered sequence of newly spawned futures,
//! reference-counted between the executor and every outstanding handle.
//! Handles hold only a non-owning (weak) reference, so destruction of the
//! executor is independently observable as a failed upgrade.
//!
//! The queue is shared mutable state behind `Rc<RefCell<..>>`; its contents
//! can change through any clone of the reference, so nothing sound can be
//! stated about what `pop` returns.  The scheduling loop is verified to cope
//! with every sequence of admitted futures.

use vstd::prelude::*;

use crate::backend::ExecutorParams;
use crate::task::TaskFuture;
use crate::Shutdown;

use std::cell::RefCell;
use std::collections::VecDeque;
use std::rc::{Rc, Weak};

verus! {

/// The owning side of the admission queue, held by the executor alone.
#[verifier::external_body]
#[verifier::reject_recursive_types(P)]
pub struct AdmissionQueue<P: ExecutorParams> {
    inner: Rc<RefCell<VecDeque<Box<dyn TaskFuture<P>>>>>,
}

/// The non-owning side, held by handles: upgrading it fails exactly when the
/// owning executor no longer exists.
#[verifier::external_body]
#[verifier::reject_recursive_types(P)]
pub struct AdmissionHandle<P: ExecutorParams> {
    inner: Weak<RefCell<VecDeque<Box<dyn TaskFuture<P>>>>>,
}

impl<P: ExecutorParams> AdmissionQueue<P> {
    /// Relies on `Rc::new`, `RefCell::new` and `VecDeque::new`: a fresh,
    /// empty queue with a single strong owner.
    #[verifier::external_body]
    pub fn new() -> (q: AdmissionQueue<P>) {
        AdmissionQueue { inner: Rc::new(RefCell::new(VecDeque::new())) }
    }

    /// Relies on `Rc::downgrade`: a non-owning reference that upgrades only
    /// while this owning side is alive.
    #[verifier::external_body]
    pub fn handle(&self) -> (h: AdmissionHandle<P>) {
        AdmissionHandle { inner: Rc::downgrade(&self.inner) }
    }

    /// Relies on `RefCell::borrow_mut` and `VecDeque::pop_front`: removes and
    /// returns the oldest admitted future, or `None` when the queue is empty.
    #[verifier::external_body]
    pub fn pop(&self) -> (r: Option<Box<dyn TaskFuture<P>>>) {
        self.inner.borrow_mut().pop_front()
    }
}

impl<P: ExecutorParams> AdmissionHandle<P> {
    /// Relies on `Weak::upgrade`, `RefCell::borrow_mut` and
    /// `VecDeque::push_back`: appends the future while the owning executor is
    /// alive, and reports `Shutdown` once it is gone.
    #[verifier::external_body]
    pub fn push(&self, fut: Box<dyn TaskFuture<P>>) -> (r: Result<(), Shutdown>) {
        match self.inner.upgrade() {
            Some(q) => {
                q.borrow_mut().push_back(fut);
                Ok(())
            },
            None => Err(Shutdown),
        }
    }

    /// Relies on `Weak::upgrade`: reports whether the owning executor still
    /// exists, without admitting anything.
    #[verifier::external_body]
    pub fn alive(&self) -> (r: bool) {
        match self.inner.upgrade() {
            Some(_) => true,
            None => false,
        }
    }

    /// Relies on `Weak::clone`: another non-owning reference to the same
    /// queue.
    #[verifier::external_body]
    pub fn duplicate(&self) -> (h: AdmissionHandle<P>) {
        AdmissionHandle { inner: self.inner.clone() }
    }
}

} // verus!
