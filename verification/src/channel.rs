//! The per-connection outbound channel: a bounded queue of text messages
//! with many producers and one consumer, provided by `tokio::sync::mpsc`.

use tokio::sync::mpsc::error::TrySendError;
use tokio::sync::mpsc::{Receiver, Sender};
use vstd::prelude::*;

verus! {

/// The producer half of a bounded `tokio::sync::mpsc` channel. Its contents
/// are shared with other tasks, so nothing is known of them here.
#[verifier::external_type_specification]
#[verifier::external_body]
#[verifier::reject_recursive_types(T)]
pub struct ExSender<T>(Sender<T>);

/// The consumer half of a bounded `tokio::sync::mpsc` channel.
#[verifier::external_type_specification]
#[verifier::external_body]
#[verifier::reject_recursive_types(T)]
pub struct ExReceiver<T>(Receiver<T>);

/// The capacity that a channel was made with: the number of messages that
/// it buffers at most. It is fixed when the channel is created, and it is
/// what `tokio::sync::mpsc::Sender::max_capacity` reports of the sender and
/// of each of its clones.
pub uninterp spec fn capacity_of(channel: Sender<String>) -> usize;

/// Number of pending messages that one connection's outbound channel holds
/// before further messages for it are refused.
pub const OUTBOUND_CAPACITY: usize = 1000;

/// What became of one attempt to enqueue a message on an outbound channel.
#[derive(Clone, Copy, Debug, PartialEq, Eq, Structural)]
pub enum Delivery {
    /// The message was enqueued.
    Queued,
    /// The channel already held as many messages as it may; the message was
    /// dropped.
    Full,
    /// The consumer half is gone; the message was dropped.
    Closed,
}

impl Delivery {
    /// Whether the message did not reach the channel.
    pub open spec fn failed(self) -> bool {
        self != Delivery::Queued
    }

    /// Whether the message did not reach the channel.
    pub fn is_failure(&self) -> (b: bool)
        ensures
            b == self.failed(),
    {
        match self {
            Delivery::Queued => false,
            Delivery::Full => true,
            Delivery::Closed => true,
        }
    }
}

/// Calls `tokio::sync::mpsc::channel`, which panics on a capacity of zero
/// and on one above `usize::MAX >> 3`, the eighth part of `usize::MAX`.
/// The channel that it returns buffers up to `capacity` messages; this is
/// all that is claimed of the two halves.
#[verifier::external_body]
fn bounded(capacity: usize) -> (halves: (Sender<String>, Receiver<String>))
    requires
        0 < capacity <= usize::MAX / 8,
    ensures
        capacity_of(halves.0) == capacity,
{
    tokio::sync::mpsc::channel(capacity)
}

/// Calls `tokio::sync::mpsc::Sender::try_send` with a copy of `payload` and
/// tells its three answers apart. Which of them comes back depends on what
/// other tasks have sent and received, so nothing is claimed of it. The call
/// never waits.
#[verifier::external_body]
pub(crate) fn offer(channel: &Sender<String>, payload: &str) -> (outcome: Delivery) {
    match channel.try_send(payload.to_owned()) {
        Ok(()) => Delivery::Queued,
        Err(TrySendError::Full(_)) => Delivery::Full,
        Err(TrySendError::Closed(_)) => Delivery::Closed,
    }
}

/// Creates the outbound channel of one connection, bounded by
/// [`OUTBOUND_CAPACITY`]: the producer half, which the registry and the
/// session share, and the consumer half, which the session's send loop
/// drains.
pub fn outbound_channel() -> (halves: (Sender<String>, Receiver<String>))
    ensures
        capacity_of(halves.0) == OUTBOUND_CAPACITY,
{
    bounded(OUTBOUND_CAPACITY)
}

} // verus!
