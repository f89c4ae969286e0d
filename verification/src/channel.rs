//! The queues between the pool and its workers. They are the unbounded
//! channels of the `async_channel` crate; what this file says of them is
//! taken on trust from that crate.

use async_channel::{Receiver, Sender};
use vstd::prelude::*;

verus! {

/// The sending end of a queue, `async_channel::Sender`. Nothing is known of
/// what is inside.
#[verifier::external_type_specification]
#[verifier::external_body]
#[verifier::reject_recursive_types(T)]
pub struct ExSender<T>(Sender<T>);

/// The receiving end of a queue, `async_channel::Receiver`. Nothing is known
/// of what is inside.
#[verifier::external_type_specification]
#[verifier::external_body]
#[verifier::reject_recursive_types(T)]
pub struct ExReceiver<T>(Receiver<T>);

/// What became of one command on its way to one worker.
#[derive(Clone, Copy, Debug, PartialEq, Eq, Structural)]
pub enum Delivery {
    /// The worker is not live: nothing was put on its queue.
    Skipped,
    /// The command is on the worker's queue.
    Queued,
    /// The queue was full and did not take the command.
    Full,
    /// The queue was closed and did not take the command.
    Closed,
}

/// Puts `item` on `queue` without waiting, by `async_channel::Sender::try_send`.
/// That call either takes the item or hands it back with the reason, full or
/// closed; which of the three happens depends on the other end of the queue,
/// so all that is claimed is that an attempt was made.
#[verifier::external_body]
pub(crate) fn offer<T>(queue: &Sender<T>, item: T) -> (delivery: Delivery)
    ensures
        delivery !is Skipped,
{
    match queue.try_send(item) {
        Ok(()) => Delivery::Queued,
        Err(async_channel::TrySendError::Full(_)) => Delivery::Full,
        Err(async_channel::TrySendError::Closed(_)) => Delivery::Closed,
    }
}

/// Makes a queue without a limit, by `async_channel::unbounded`, and returns
/// its two ends. Nothing is claimed of them.
#[verifier::external_body]
pub(crate) fn open_queue<T>() -> (ends: (Sender<T>, Receiver<T>)) {
    async_channel::unbounded()
}

} // verus!
