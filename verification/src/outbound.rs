//! The queues that carry events towards clients: one bounded queue per
//! connection and one broadcast channel shared by all of them.

use vstd::prelude::*;
use vstd::arithmetic::power2::is_pow2;
use crate::message::WsMessage;

verus! {

/// The sending end of a connection's private queue.
#[verifier::external_type_specification]
#[verifier::external_body]
#[verifier::reject_recursive_types(T)]
pub struct ExQueueSender<T>(tokio::sync::mpsc::Sender<T>);

/// The receiving end of a connection's private queue.
#[verifier::external_type_specification]
#[verifier::external_body]
#[verifier::reject_recursive_types(T)]
pub struct ExQueueReceiver<T>(tokio::sync::mpsc::Receiver<T>);

/// The sending end of the shared broadcast channel.
#[verifier::external_type_specification]
#[verifier::external_body]
#[verifier::reject_recursive_types(T)]
pub struct ExBroadcastSender<T>(tokio::sync::broadcast::Sender<T>);

/// Events a connection's private queue holds before pushes start to fail.
pub const OUTBOUND_QUEUE_CAPACITY: usize = 32;

/// Events the broadcast channel is asked to keep for receivers that lag behind.
pub const BROADCAST_CAPACITY: usize = 100;

/// Events the broadcast channel does keep: the capacity asked for, rounded up
/// to a power of two.
pub const BROADCAST_RING: usize = 128;

/// The number of events a private queue was made for, seen from its sending
/// end: what `tokio::sync::mpsc::Sender::max_capacity` returns. It stays the
/// same however full the queue is.
pub uninterp spec fn queue_bound(handle: tokio::sync::mpsc::Sender<WsMessage>) -> usize;

/// The number of events a private queue was made for, seen from its receiving
/// end: what `tokio::sync::mpsc::Receiver::max_capacity` returns.
pub uninterp spec fn receiver_bound(outbound: tokio::sync::mpsc::Receiver<WsMessage>) -> usize;

/// The number of events the ring buffer of a broadcast channel holds: how many
/// a receiver may lag behind before it starts to miss events.
pub uninterp spec fn broadcast_ring(sender: tokio::sync::broadcast::Sender<WsMessage>) -> usize;

/// Whether `ring` is `capacity` rounded up to a power of two: the one power of
/// two that is at least `capacity` and less than twice as much.
pub open spec fn rounds_up_to(capacity: int, ring: int) -> bool {
    is_pow2(ring) && capacity <= ring < 2 * capacity
}

/// What became of one push into a connection's private queue.
#[derive(Clone, Copy, Debug, PartialEq, Eq, Structural)]
pub enum DeliveryOutcome {
    /// The event is in the queue.
    Queued,
    /// The queue was full; the event is dropped for this connection.
    Full,
    /// The receiving end is gone; the event is dropped for this connection.
    Closed,
}

/// `tokio::sync::mpsc::channel`: the two ends of a bounded queue made for
/// `capacity` events, which is the capacity that either end reports from then
/// on. The call panics on a capacity of zero or above an eighth of
/// `usize::MAX`, which the precondition leaves out. Nothing is claimed of what
/// the queue holds.
#[verifier::external_body]
fn bounded_queue(capacity: usize) -> (ends: (
    tokio::sync::mpsc::Sender<WsMessage>,
    tokio::sync::mpsc::Receiver<WsMessage>,
))
    requires
        0 < capacity <= usize::MAX / 8,
    ensures
        queue_bound(ends.0) == capacity,
        receiver_bound(ends.1) == capacity,
{
    tokio::sync::mpsc::channel(capacity)
}

/// `tokio::sync::broadcast::channel`, of which only the sending end is kept.
/// The channel's ring buffer holds `capacity` events rounded up to the next
/// power of two. The call panics on a capacity of zero or above half of
/// `usize::MAX`, which the precondition leaves out. Nothing is claimed of who
/// listens.
#[verifier::external_body]
fn broadcast_channel(capacity: usize) -> (sender: tokio::sync::broadcast::Sender<WsMessage>)
    requires
        0 < capacity <= usize::MAX / 2,
    ensures
        rounds_up_to(capacity as int, broadcast_ring(sender) as int),
{
    tokio::sync::broadcast::channel(capacity).0
}

/// `tokio::sync::mpsc::Sender::try_send`: pushes without waiting. The outcome
/// depends on what the queue holds and on whether its receiver still lives,
/// so nothing is claimed of it.
#[verifier::external_body]
pub(crate) fn try_deliver(
    handle: &tokio::sync::mpsc::Sender<WsMessage>,
    msg: WsMessage,
) -> (outcome: DeliveryOutcome)
{
    match handle.try_send(msg) {
        Ok(()) => DeliveryOutcome::Queued,
        Err(tokio::sync::mpsc::error::TrySendError::Full(_)) => DeliveryOutcome::Full,
        Err(tokio::sync::mpsc::error::TrySendError::Closed(_)) => DeliveryOutcome::Closed,
    }
}

/// `tokio::sync::broadcast::Sender::send`: the number of receivers the event
/// was handed to, or nothing when none is listening. The result depends on
/// who listens at the moment, so nothing is claimed of it.
#[verifier::external_body]
pub(crate) fn broadcast_send(
    sender: &tokio::sync::broadcast::Sender<WsMessage>,
    msg: WsMessage,
) -> (receivers: Option<usize>)
{
    sender.send(msg).ok()
}

/// The two ends of a fresh private queue, made for as many events as every
/// connection gets.
pub(crate) fn outbound_queue() -> (ends: (
    tokio::sync::mpsc::Sender<WsMessage>,
    tokio::sync::mpsc::Receiver<WsMessage>,
))
    ensures
        queue_bound(ends.0) == OUTBOUND_QUEUE_CAPACITY,
        receiver_bound(ends.1) == OUTBOUND_QUEUE_CAPACITY,
{
    bounded_queue(OUTBOUND_QUEUE_CAPACITY)
}

/// The sender of a fresh broadcast channel, asked to keep as many events as
/// the registry wants for receivers that lag behind. Rounded up to a power of
/// two, that makes a ring of `BROADCAST_RING` events.
pub(crate) fn shared_channel() -> (sender: tokio::sync::broadcast::Sender<WsMessage>)
    ensures
        rounds_up_to(BROADCAST_CAPACITY as int, broadcast_ring(sender) as int),
        broadcast_ring(sender) == BROADCAST_RING,
{
    let sender = broadcast_channel(BROADCAST_CAPACITY);
    proof {
        lemma_ring_of_broadcast_capacity(broadcast_ring(sender) as int);
    }
    sender
}

/// The only power of two from `BROADCAST_CAPACITY` up to twice as much is
/// `BROADCAST_RING`.
proof fn lemma_ring_of_broadcast_capacity(ring: int)
    requires
        rounds_up_to(BROADCAST_CAPACITY as int, ring),
    ensures
        ring == BROADCAST_RING,
{
    reveal_with_fuel(is_pow2, 9);
}

} // verus!
