//! The one-shot channel over which a background task hands its single result
//! to the watcher that launched it.

use tokio::sync::oneshot::error::{RecvError, TryRecvError};
use tokio::sync::oneshot::{Receiver, Sender};
use vstd::prelude::*;

verus! {

/// `tokio::sync::oneshot::Sender`: the sending end, carried to whoever runs
/// the task and never used here.
#[verifier::external_type_specification]
#[verifier::external_body]
#[verifier::reject_recursive_types(T)]
pub struct ExSender<T>(Sender<T>);

/// `tokio::sync::oneshot::Receiver`: the receiving end, looked at by
/// [`try_recv`] alone.
#[verifier::external_type_specification]
#[verifier::external_body]
#[verifier::reject_recursive_types(T)]
pub struct ExReceiver<T>(Receiver<T>);

/// `tokio::sync::oneshot::error::RecvError`: what awaiting a receiver fails
/// with. Nothing here awaits one; the type is named by the receiver's own
/// impls.
#[verifier::external_type_specification]
#[verifier::external_body]
pub struct ExRecvError(RecvError);

/// The receiving end of a one-shot channel on which every look so far has
/// found nothing. It is made here and nowhere else: from a fresh channel, or
/// from a look that found the channel open and empty.
#[verifier::reject_recursive_types(T)]
pub struct Pending<T> {
    rx: Receiver<T>,
}

/// What one look at the receiving end of a one-shot channel finds.
#[verifier::reject_recursive_types(T)]
pub enum Signal<T> {
    /// The task has sent its value; the channel is used up.
    Ready(T),
    /// Nothing has been sent yet and the sender is still held: the receiving
    /// end stays in use.
    Empty(Pending<T>),
    /// The sender is gone and has sent nothing.
    Closed,
}

/// `tokio::sync::oneshot::channel`: the two ends of a fresh one-shot channel.
#[verifier::external_body]
pub(crate) fn channel<T>() -> (ends: (Sender<T>, Pending<T>)) {
    let (tx, rx) = tokio::sync::oneshot::channel();
    (tx, Pending { rx })
}

/// `tokio::sync::oneshot::Receiver::try_recv`: looks for the value without
/// waiting. The call panics on a receiver that has already given a value or
/// `Closed`; the receiver is taken by value here and handed back only while
/// the channel is open and empty, so no used-up receiver is looked at again.
/// What is found depends on the sending task, so nothing is promised of it.
#[verifier::external_body]
pub(crate) fn try_recv<T>(pending: Pending<T>) -> (found: Signal<T>) {
    let mut rx = pending.rx;
    match rx.try_recv() {
        Ok(value) => Signal::Ready(value),
        Err(TryRecvError::Empty) => Signal::Empty(Pending { rx }),
        Err(TryRecvError::Closed) => Signal::Closed,
    }
}

} // verus!
