//! The outside pieces that resolutions are built from: futures' unbounded
//! channels and std's reference-counted liveness token.
use vstd::prelude::*;

use futures::sync::mpsc::{UnboundedReceiver, UnboundedSender};
use std::sync::Arc;

use crate::update::Received;

verus! {

#[verifier::external_type_specification]
#[verifier::external_body]
#[verifier::reject_recursive_types(T)]
pub struct ExUnboundedSender<T>(UnboundedSender<T>);

#[verifier::external_type_specification]
#[verifier::external_body]
#[verifier::reject_recursive_types(T)]
pub struct ExUnboundedReceiver<T>(UnboundedReceiver<T>);

/// Relies on Clone for UnboundedSender: another sender on the same channel.
/// It panics only once more senders are alive than half of `usize` counts.
pub assume_specification<T>[ <UnboundedSender<T> as Clone>::clone ](tx: &UnboundedSender<T>) -> UnboundedSender<T>;

/// Relies on futures::sync::mpsc::unbounded: a fresh connected pair.
#[verifier::external_body]
pub(crate) fn unbounded<T>() -> (UnboundedSender<T>, UnboundedReceiver<T>) {
    futures::sync::mpsc::unbounded()
}

/// Relies on UnboundedSender::unbounded_send: queues the message, and fails
/// only when the receiver is gone.
#[verifier::external_body]
pub(crate) fn send<T>(tx: &UnboundedSender<T>, msg: T) -> (r: bool) {
    tx.unbounded_send(msg).is_ok()
}

/// Relies on futures::task::is_in_task: whether a futures task is running
/// on this thread, so that it can be parked.
#[verifier::external_body]
fn is_in_task() -> bool {
    futures::task::is_in_task()
}

/// Proof that a futures task is running on this thread. Only `in_task`
/// builds one, after asking futures; it is used at once and not kept.
pub(crate) struct InTask {
    checked: (),
}

/// Returns a witness that a futures task is running, or `None` when none is.
pub(crate) fn in_task() -> Option<InTask> {
    if is_in_task() {
        Some(InTask { checked: () })
    } else {
        None
    }
}

/// Relies on Stream::poll of UnboundedReceiver, which never returns `Err`.
/// When nothing is queued it parks the current futures task, and it panics
/// where there is none: the witness from `in_task` rules that out.
#[verifier::external_body]
pub(crate) fn poll_receiver<T>(rx: &mut UnboundedReceiver<T>, task: &InTask) -> Received<T> {
    match futures::Stream::poll(rx) {
        Ok(futures::Async::Ready(Some(item))) => Received::Item(item),
        Ok(futures::Async::Ready(None)) => Received::Closed,
        Ok(futures::Async::NotReady) => Received::Pending,
        Err(()) => Received::Closed,
    }
}

/// Relies on Arc::clone: a second handle on the same token.
#[verifier::external_body]
pub(crate) fn share(token: &Arc<()>) -> Arc<()> {
    Arc::clone(token)
}

/// Relies on Arc::strong_count: how many handles on the token are left,
/// the one passed in among them.
#[verifier::external_body]
pub(crate) fn strong_count(token: &Arc<()>) -> (r: usize)
    ensures
        r >= 1,
{
    Arc::strong_count(token)
}

} // verus!
