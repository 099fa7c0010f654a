//! The cross-thread-safe wake backend: an unbounded multi-producer channel.
//! Wakers holding this sender may fire from any thread; the ids they push
//! are discovered by the executor's thread on its next pass.

use vstd::prelude::*;

use crate::backend::{ExecutorParams, WakeReceiver, WakeSender};

verus! {

/// The sending half: safe to clone into wakers that fire from any thread.
#[verifier::external_body]
pub struct CrossbeamSender {
    inner: crossbeam_channel::Sender<u64>,
}

/// The receiving half, owned by the executor.
#[verifier::external_body]
pub struct CrossbeamReceiver {
    inner: crossbeam_channel::Receiver<u64>,
}

/// Relies on `crossbeam_channel::unbounded`: a connected sender/receiver
/// pair over a concurrent queue that never fills up.
#[verifier::external_body]
fn channel_pair() -> (p: (CrossbeamSender, CrossbeamReceiver)) {
    let (s, r) = crossbeam_channel::unbounded();
    (CrossbeamSender { inner: s }, CrossbeamReceiver { inner: r })
}

/// Relies on `crossbeam_channel::Sender::clone`: another sender for the same
/// channel.
#[verifier::external_body]
fn channel_sender_clone(s: &CrossbeamSender) -> (r: CrossbeamSender) {
    CrossbeamSender { inner: s.inner.clone() }
}

/// Relies on `crossbeam_channel::Sender::send`: on an unbounded channel it
/// never blocks; it enqueues the id unless every receiver is gone, in which
/// case the wake has no executor left to reach and is dropped.
#[verifier::external_body]
fn channel_send(s: &CrossbeamSender, id: u64) {
    let _ = s.inner.send(id);
}

/// Relies on `crossbeam_channel::Receiver::try_recv`: strictly non-blocking;
/// yields a pending id or nothing, never waiting for a sender.
#[verifier::external_body]
fn channel_try_recv(r: &CrossbeamReceiver) -> (res: Option<u64>) {
    r.inner.try_recv().ok()
}

impl Clone for CrossbeamSender {
    fn clone(&self) -> (r: Self) {
        channel_sender_clone(self)
    }
}

impl WakeSender for CrossbeamSender {
    fn push(&self, id: u64) {
        channel_send(self, id);
    }
}

impl WakeReceiver for CrossbeamReceiver {
    fn pop(&mut self) -> Option<u64> {
        channel_try_recv(self)
    }
}

/// The cross-thread-safe backend choice: wake delivery over an unbounded
/// concurrent queue, valid from any thread.
pub struct CrossbeamUnboundedChannelImpl;

impl ExecutorParams for CrossbeamUnboundedChannelImpl {
    type WakeSender = CrossbeamSender;

    type WakeReceiver = CrossbeamReceiver;

    fn pair() -> (Self::WakeSender, Self::WakeReceiver) {
        channel_pair()
    }
}

} // verus!
