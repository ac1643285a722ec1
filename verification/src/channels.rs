//! Non-blocking access to the tokio channels that connect a module's
//! controller to its UI side.
//!
//! The UI scheduler must never block, so every operation exposed here is a
//! synchronous, best-effort attempt; the outcome is returned as a plain
//! value for verified code to act on. The channel types themselves are
//! opaque: nothing is assumed of their hidden state, only what the tokio
//! sources show of every outcome.

use vstd::prelude::*;

verus! {

#[verifier::external_type_specification]
#[verifier::external_body]
#[verifier::reject_recursive_types(T)]
pub struct ExMpscSender<T>(tokio::sync::mpsc::Sender<T>);

#[verifier::external_type_specification]
#[verifier::external_body]
#[verifier::reject_recursive_types(T)]
pub struct ExMpscReceiver<T>(tokio::sync::mpsc::Receiver<T>);

#[verifier::external_type_specification]
#[verifier::external_body]
#[verifier::reject_recursive_types(T)]
pub struct ExBroadcastSender<T>(tokio::sync::broadcast::Sender<T>);

#[verifier::external_type_specification]
#[verifier::external_body]
#[verifier::reject_recursive_types(T)]
pub struct ExBroadcastReceiver<T>(tokio::sync::broadcast::Receiver<T>);

/// The outcome of a non-blocking send: the message went into the queue, or
/// it came straight back because the queue was full or the receiver gone.
pub enum SendAttempt<T> {
    Sent,
    Full(T),
    Closed(T),
}

/// The outcome of a non-blocking receive: a message, nothing pending, or a
/// channel whose senders are all gone and whose queue is drained.
pub enum RecvAttempt<T> {
    Received(T),
    Empty,
    Disconnected,
}

/// Relies on `tokio::sync::mpsc::channel`: allocates a fresh bounded
/// queue and hands back its two endpoints. It panics on a zero buffer
/// and on one beyond the semaphore's permit bound, so the requires
/// stays comfortably inside both on every architecture.
#[verifier::external_body]
pub(crate) fn mpsc_channel<T>(buffer: usize) -> (r: (
    tokio::sync::mpsc::Sender<T>,
    tokio::sync::mpsc::Receiver<T>,
))
    requires
        1 <= buffer <= 0x0fffffff,
{
    tokio::sync::mpsc::channel(buffer)
}

/// Relies on `tokio::sync::mpsc::Sender::try_send`: queues the message if
/// a permit is free and returns at once either way; on `Full` or `Closed`
/// the tokio error carries the message back out unchanged.
#[verifier::external_body]
pub(crate) fn mpsc_try_send<T>(tx: &tokio::sync::mpsc::Sender<T>, value: T) -> (r: SendAttempt<T>)
    ensures
        r matches SendAttempt::Full(v) ==> v == value,
        r matches SendAttempt::Closed(v) ==> v == value,
{
    match tx.try_send(value) {
        Ok(()) => SendAttempt::Sent,
        Err(tokio::sync::mpsc::error::TrySendError::Full(v)) => SendAttempt::Full(v),
        Err(tokio::sync::mpsc::error::TrySendError::Closed(v)) => SendAttempt::Closed(v),
    }
}

/// Relies on `tokio::sync::mpsc::Receiver::try_recv`: pops the next queued
/// message if one is pending, and reports a drained, sender-less channel
/// as disconnected.
#[verifier::external_body]
pub(crate) fn mpsc_try_recv<T>(rx: &mut tokio::sync::mpsc::Receiver<T>) -> (r: RecvAttempt<T>) {
    match rx.try_recv() {
        Ok(v) => RecvAttempt::Received(v),
        Err(tokio::sync::mpsc::error::TryRecvError::Empty) => RecvAttempt::Empty,
        Err(tokio::sync::mpsc::error::TryRecvError::Disconnected) => RecvAttempt::Disconnected,
    }
}

/// Relies on `<tokio::sync::mpsc::Sender as Clone>::clone`: a second
/// handle to the same queue.
pub assume_specification<T>[ <tokio::sync::mpsc::Sender<T> as Clone>::clone ](
    this: &tokio::sync::mpsc::Sender<T>,
) -> tokio::sync::mpsc::Sender<T>;

/// Relies on `<tokio::sync::broadcast::Sender as Clone>::clone`: a
/// second handle to the same fan-out channel.
pub assume_specification<T>[ <tokio::sync::broadcast::Sender<T> as Clone>::clone ](
    this: &tokio::sync::broadcast::Sender<T>,
) -> tokio::sync::broadcast::Sender<T>;

/// Relies on `tokio::sync::broadcast::channel`: allocates a fan-out
/// channel and hands back the sender and one subscription. It panics
/// on a zero capacity and on one over half the address space, so the
/// requires stays comfortably inside both on every architecture.
#[verifier::external_body]
pub(crate) fn broadcast_channel<T: Clone>(capacity: usize) -> (r: (
    tokio::sync::broadcast::Sender<T>,
    tokio::sync::broadcast::Receiver<T>,
))
    requires
        1 <= capacity <= 0x0fffffff,
{
    tokio::sync::broadcast::channel(capacity)
}

/// Relies on `tokio::sync::broadcast::Sender::send`: hands the value to
/// every live subscriber and returns how many there were; with none, the
/// value is simply dropped (tokio reports that as an error, here it is the
/// promised no-op and the count is zero).
#[verifier::external_body]
pub(crate) fn broadcast_send<T: Clone>(tx: &tokio::sync::broadcast::Sender<T>, value: T) -> (n:
    usize) {
    match tx.send(value) {
        Ok(n) => n,
        Err(tokio::sync::broadcast::error::SendError(_)) => 0,
    }
}

/// Relies on `tokio::sync::broadcast::Sender::subscribe`: a fresh
/// subscription that sees only values sent after this call, with no
/// replay of earlier ones.
#[verifier::external_body]
pub(crate) fn broadcast_subscribe<T: Clone>(tx: &tokio::sync::broadcast::Sender<T>) -> (r:
    tokio::sync::broadcast::Receiver<T>) {
    tx.subscribe()
}

} // verus!
