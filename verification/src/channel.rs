//! Bounded multi-producer, single-consumer message queues for the checker
//! actors, and the single-use rendezvous channel used to acknowledge
//! termination.
//!
//! The queue is the bounded channel of the `futures` crate; enqueuing is
//! non-blocking (`try_send`), so a full queue fails the dispatch rather than
//! stalling it. Receiving is asynchronous and is driven by the caller that
//! runs the actors, through the receiver's inner handle.

use futures::channel::mpsc;
use vstd::prelude::*;

verus! {

#[verifier::external_type_specification]
#[verifier::external_body]
#[verifier::reject_recursive_types(T)]
pub struct ExSyncSender<T>(std::sync::mpsc::SyncSender<T>);

#[verifier::external_type_specification]
#[verifier::external_body]
#[verifier::reject_recursive_types(T)]
pub struct ExStdReceiver<T>(std::sync::mpsc::Receiver<T>);

/// Why an enqueue attempt failed.
#[derive(Clone, Copy, Debug, PartialEq, Eq, Structural)]
pub enum ChannelError {
    /// The queue had no room.
    Full,
    /// The receiver is gone.
    Disconnected,
}

/// The sending half of a bounded message queue; cloning shares the queue.
/// The queue itself is the bounded channel of the futures crate, which
/// Verus does not look into.
#[verifier::external_body]
#[verifier::reject_recursive_types(T)]
pub struct Sender<T> {
    inner: mpsc::Sender<T>,
}

/// The receiving half of a bounded message queue. The inner handle is what
/// an actor's receive loop polls.
#[verifier::external_body]
#[verifier::reject_recursive_types(T)]
pub struct Receiver<T> {
    pub inner: mpsc::Receiver<T>,
}

impl<T> Clone for Sender<T> {
    /// Relies on mpsc::Sender::clone of the futures crate: the clone feeds
    /// the same queue.
    #[verifier::external_body]
    fn clone(&self) -> (r: Self) {
        Sender { inner: self.inner.clone() }
    }
}

impl<T> Sender<T> {
    /// Enqueue a message without blocking; fails when the queue is full or
    /// the receiver is gone.
    ///
    /// Relies on mpsc::Sender::try_send of the futures crate: it returns at
    /// once, `Ok` when the message was enqueued, and otherwise an error that
    /// says whether the queue was full or disconnected.
    #[verifier::external_body]
    pub fn try_send(&mut self, msg: T) -> (r: Result<(), ChannelError>) {
        match self.inner.try_send(msg) {
            Ok(()) => Ok(()),
            Err(e) => {
                if e.is_full() {
                    Err(ChannelError::Full)
                } else {
                    Err(ChannelError::Disconnected)
                }
            },
        }
    }
}

/// Create a bounded queue. Beyond `size` buffered messages, each sender
/// clone can park one more.
///
/// Relies on mpsc::channel of the futures crate, which panics only on
/// buffer sizes near `usize::MAX`.
#[verifier::external_body]
pub fn new<T>(size: usize) -> (r: (Sender<T>, Receiver<T>))
    requires
        size < 0x3fffffff,
{
    let (sender, receiver) = mpsc::channel(size);
    (Sender { inner: sender }, Receiver { inner: receiver })
}

/// Create the single-use acknowledgment channel for one termination
/// handshake: room for exactly one message.
///
/// Relies on std's mpsc::sync_channel.
#[verifier::external_body]
pub fn new_ack_channel() -> (r: (std::sync::mpsc::SyncSender<()>, std::sync::mpsc::Receiver<()>)) {
    std::sync::mpsc::sync_channel(1)
}

/// Send the one acknowledgment; reports whether the waiting side was still
/// there.
///
/// Relies on std's SyncSender::send: it blocks only while the buffer is
/// full, which the single send into a fresh one-slot channel never meets,
/// and errs only when the receiver is gone.
#[verifier::external_body]
pub fn send_ack(ack: &std::sync::mpsc::SyncSender<()>) -> (r: bool) {
    ack.send(()).is_ok()
}

/// Wait for the acknowledgment; reports whether one arrived.
///
/// Relies on std's mpsc::Receiver::recv: it returns only once a message was
/// received or every sender is gone, which is what makes the termination
/// handshake synchronous.
#[verifier::external_body]
pub fn recv_ack(ack: &std::sync::mpsc::Receiver<()>) -> (r: bool) {
    ack.recv().is_ok()
}

} // verus!
