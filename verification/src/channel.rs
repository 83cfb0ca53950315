//! The bounded queues that link producers, the bus and the recipients.
use crate::message::Message;
use tokio::sync::mpsc::{Receiver, Sender};
use vstd::prelude::*;

verus! {

/// The producing end of a queue: `tokio::sync::mpsc::Sender`. Nothing is known of
/// a value of it but what the functions below state.
#[verifier::external_type_specification]
#[verifier::external_body]
#[verifier::reject_recursive_types(T)]
pub struct ExSender<T>(tokio::sync::mpsc::Sender<T>);

/// The consuming end of a queue: `tokio::sync::mpsc::Receiver`. Nothing is known
/// of a value of it but what the functions below state.
#[verifier::external_type_specification]
#[verifier::external_body]
#[verifier::reject_recursive_types(T)]
pub struct ExReceiver<T>(tokio::sync::mpsc::Receiver<T>);

/// The depth of the queue behind a producing end: what
/// `tokio::sync::mpsc::Sender::max_capacity` returns for it. It is fixed when the
/// queue is made and is not the room that is left in it.
pub uninterp spec fn sender_depth(sender: Sender<Message>) -> nat;

/// The depth of the queue behind a consuming end: what
/// `tokio::sync::mpsc::Receiver::max_capacity` returns for it.
pub uninterp spec fn receiver_depth(receiver: Receiver<Message>) -> nat;

/// The depth of the queues of the bus and of the recipients.
pub const QUEUE_DEPTH: usize = 100;

/// The greatest depth that a queue can be made with.
pub open spec fn max_queue_depth() -> nat {
    (usize::MAX / 8) as nat
}

/// Calls `tokio::sync::mpsc::channel`, which makes a queue of the given depth
/// and returns its two ends. Not proved: that both ends then report that depth
/// as their maximum capacity, which is how the outside crate documents
/// `max_capacity`. The outside function panics on a depth of zero and on one
/// above its semaphore's limit, `usize::MAX >> 3`; both are kept out.
#[verifier::external_body]
fn bounded_queue(depth: usize) -> (ends: (Sender<Message>, Receiver<Message>))
    requires
        0 < depth <= max_queue_depth(),
    ensures
        sender_depth(ends.0) == depth,
        receiver_depth(ends.1) == depth,
{
    tokio::sync::mpsc::channel(depth)
}

/// Makes a queue of the standard depth and returns its producing and its
/// consuming end.
pub fn create_channels() -> (ends: (Sender<Message>, Receiver<Message>))
    ensures
        sender_depth(ends.0) == QUEUE_DEPTH,
        receiver_depth(ends.1) == QUEUE_DEPTH,
{
    bounded_queue(QUEUE_DEPTH)
}

/// Makes a queue of the given depth and returns its two ends, or nothing where
/// no queue can have that depth: a queue holds at least one message and at most
/// `max_queue_depth()`.
pub fn create_channels_with_depth(depth: usize) -> (ends: Option<
    (Sender<Message>, Receiver<Message>),
>)
    ensures
        ends is Some <==> 0 < depth <= max_queue_depth(),
        ends matches Some(pair) ==> sender_depth(pair.0) == depth && receiver_depth(pair.1)
            == depth,
{
    if 0 < depth && depth <= usize::MAX / 8 {
        Some(bounded_queue(depth))
    } else {
        None
    }
}

} // verus!
