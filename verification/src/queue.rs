//! The queues between a dispatcher and its workers.

use tokio::sync::mpsc::{Receiver, Sender};
use vstd::prelude::*;

use crate::types::Update;

verus! {

/// The sending half of a bounded `tokio` channel.
#[verifier::external_type_specification]
#[verifier::external_body]
#[verifier::reject_recursive_types(T)]
pub struct ExSender<T>(Sender<T>);

/// The receiving half of a bounded `tokio` channel.
#[verifier::external_type_specification]
#[verifier::external_body]
#[verifier::reject_recursive_types(T)]
pub struct ExReceiver<T>(Receiver<T>);

/// How many updates the queue behind `tx` holds at most.
pub uninterp spec fn queue_bound(tx: Sender<Update>) -> nat;

/// `rx` receives what is sent on `tx`, in the order in which it was sent.
pub uninterp spec fn queue_connects(tx: Sender<Update>, rx: Receiver<Update>) -> bool;

/// A queue can be made with this size: it has room for an update, and the size is
/// not above what a `tokio` semaphore can count.
pub open spec fn valid_queue_size(size: usize) -> bool {
    0 < size <= usize::MAX / 8
}

/// Tells whether a queue can be made with this size.
pub fn is_valid_queue_size(size: usize) -> (valid: bool)
    ensures
        valid == valid_queue_size(size),
{
    0 < size && size <= usize::MAX / 8
}

/// Calls [`tokio::sync::mpsc::channel`] for updates: it returns the two halves of
/// a new channel, which holds at most `size` updates. The call panics on a size
/// that is zero or above the semaphore's limit.
#[verifier::external_body]
pub(crate) fn update_queue(size: usize) -> (halves: (Sender<Update>, Receiver<Update>))
    requires
        valid_queue_size(size),
    ensures
        queue_bound(halves.0) == size,
        queue_connects(halves.0, halves.1),
{
    tokio::sync::mpsc::channel(size)
}

} // verus!
