//! The bounded channels of `std::sync::mpsc`, as the library uses them.
//! Whether a value gets through depends on the other end, in another thread,
//! so the wrappers below promise nothing of their results.
use vstd::prelude::*;

use std::sync::mpsc::{Receiver, SyncSender};

verus! {

#[verifier::external_type_specification]
#[verifier::external_body]
#[verifier::reject_recursive_types(T)]
pub struct ExSyncSender<T>(SyncSender<T>);

#[verifier::external_type_specification]
#[verifier::external_body]
#[verifier::reject_recursive_types(T)]
pub struct ExReceiver<T>(Receiver<T>);

/// Relies on `SyncSender::clone`: one more sender into the same channel.
pub assume_specification<T>[ <SyncSender<T> as Clone>::clone ](sender: &SyncSender<T>) -> SyncSender<T>;

/// Relies on `std::sync::mpsc::sync_channel`: a channel that holds at most
/// `capacity` values not yet received, and blocks senders beyond that.
#[verifier::external_body]
pub(crate) fn bounded<T>(capacity: usize) -> (SyncSender<T>, Receiver<T>) {
    std::sync::mpsc::sync_channel(capacity)
}

/// Relies on `SyncSender::send`: waits for room in the channel and queues
/// `value`; `false` when the receiving end is gone and the value was dropped.
#[verifier::external_body]
pub(crate) fn submit<T>(sender: &SyncSender<T>, value: T) -> bool {
    sender.send(value).is_ok()
}

/// Relies on `Receiver::recv`: waits for the next value; `None` once the
/// channel is empty and every sender is gone.
#[verifier::external_body]
pub(crate) fn receive<T>(receiver: &Receiver<T>) -> Option<T> {
    receiver.recv().ok()
}

} // verus!
