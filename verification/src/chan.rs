//! Trusted bindings to the point-to-point channels of
//! `futures::channel::mpsc`.
//!
//! A channel is the external collaborator carrying events from the
//! broadcaster to one subscriber: a FIFO queue with a producer end held in a
//! broadcaster slot and a consumer end held by the subscriber, either
//! capacity-bounded or unbounded. The channel is only used, never built
//! here; everything the library proves about delivery is stated over the
//! ghost delivery logs kept by the callers of these functions.
//!
//! Every function in this module is an `external_body` wrapper around one
//! operation of the channel, with its behaviour taken from the channel's own
//! documentation and source.

use vstd::prelude::*;

verus! {

/// The producer end of a bounded channel.
#[verifier::external_type_specification]
#[verifier::external_body]
#[verifier::reject_recursive_types(T)]
pub struct ExSender<T>(futures::channel::mpsc::Sender<T>);

/// The consumer end of a bounded channel.
#[verifier::external_type_specification]
#[verifier::external_body]
#[verifier::reject_recursive_types(T)]
pub struct ExReceiver<T>(futures::channel::mpsc::Receiver<T>);

/// The producer end of an unbounded channel.
#[verifier::external_type_specification]
#[verifier::external_body]
#[verifier::reject_recursive_types(T)]
pub struct ExUnboundedSender<T>(futures::channel::mpsc::UnboundedSender<T>);

/// The consumer end of an unbounded channel.
#[verifier::external_type_specification]
#[verifier::external_body]
#[verifier::reject_recursive_types(T)]
pub struct ExUnboundedReceiver<T>(futures::channel::mpsc::UnboundedReceiver<T>);

/// The largest internal buffer size a bounded channel accepts; the channel's
/// constructor panics on anything larger.
pub const MAX_BUFFER: usize = usize::MAX / 4;

/// Create a bounded channel.
///
/// Relies on `futures::channel::mpsc::channel`: with a single producer the
/// channel holds up to `buffer + 1` unread events; a further delivery waits
/// until the consumer reads one. The constructor panics for `buffer` at or
/// above an internal limit, which the precondition rules out.
#[verifier::external_body]
pub(crate) fn new_bounded<T>(buffer: usize) -> (ends: (
    futures::channel::mpsc::Sender<T>,
    futures::channel::mpsc::Receiver<T>,
))
    requires
        buffer < MAX_BUFFER,
{
    futures::channel::mpsc::channel(buffer)
}

/// Create an unbounded channel.
///
/// Relies on `futures::channel::mpsc::unbounded`: delivery never waits, and
/// the queue grows without limit if the consumer falls behind.
#[verifier::external_body]
pub(crate) fn new_unbounded<T>() -> (ends: (
    futures::channel::mpsc::UnboundedSender<T>,
    futures::channel::mpsc::UnboundedReceiver<T>,
))
{
    futures::channel::mpsc::unbounded()
}

/// Whether the bounded channel can take no further event: its consumer end
/// was dropped, or closed it, or the producer end already closed it.
///
/// Relies on `futures::channel::mpsc::Sender::is_closed`.
#[verifier::external_body]
pub(crate) fn bounded_is_closed<T>(tx: &futures::channel::mpsc::Sender<T>) -> bool {
    tx.is_closed()
}

/// Whether the unbounded channel can take no further event.
///
/// Relies on `futures::channel::mpsc::UnboundedSender::is_closed`.
#[verifier::external_body]
pub(crate) fn unbounded_is_closed<T>(tx: &futures::channel::mpsc::UnboundedSender<T>) -> bool {
    tx.is_closed()
}

/// Deliver a copy of `evt` into the bounded channel, waiting for buffer
/// space if the channel is full. Returns whether the channel accepted it; a
/// refusal means the consumer is gone.
///
/// Relies on `pollster::block_on` and `SinkExt::feed` (which, for
/// this channel, waits until the queue has room and then enqueues the event
/// without requiring a flush), and on `T::clone` producing a value equal to
/// the original.
#[verifier::external_body]
pub(crate) fn bounded_send<T: Clone>(tx: &mut futures::channel::mpsc::Sender<T>, evt: &T) -> bool {
    pollster::block_on(futures::sink::SinkExt::feed(tx, evt.clone())).is_ok()
}

/// Deliver a copy of `evt` into the unbounded channel, without waiting.
/// Returns whether the channel accepted it; a refusal means the consumer is
/// gone.
///
/// Relies on `futures::channel::mpsc::UnboundedSender::unbounded_send` and
/// on `T::clone` producing a value equal to the original.
#[verifier::external_body]
pub(crate) fn unbounded_send<T: Clone>(
    tx: &futures::channel::mpsc::UnboundedSender<T>,
    evt: &T,
) -> bool {
    tx.unbounded_send(evt.clone()).is_ok()
}

/// Close the bounded channel from the producer side, preventing any new
/// event from entering it; events already buffered stay readable.
///
/// Relies on `futures::channel::mpsc::Sender::close_channel`.
#[verifier::external_body]
pub(crate) fn bounded_close<T>(tx: &mut futures::channel::mpsc::Sender<T>) {
    tx.close_channel()
}

/// Close the unbounded channel from the producer side, preventing any new
/// event from entering it; events already buffered stay readable.
///
/// Relies on `futures::channel::mpsc::UnboundedSender::close_channel`.
#[verifier::external_body]
pub(crate) fn unbounded_close<T>(tx: &futures::channel::mpsc::UnboundedSender<T>) {
    tx.close_channel()
}

/// Wait for the next event from the bounded channel, in delivery (FIFO)
/// order. Returns `None` once the channel is closed or its producer end is
/// gone and every buffered event has been read.
///
/// Relies on `pollster::block_on` and `StreamExt::next`.
#[verifier::external_body]
pub(crate) fn bounded_next<T>(rx: &mut futures::channel::mpsc::Receiver<T>) -> Option<T> {
    pollster::block_on(futures::stream::StreamExt::next(rx))
}

/// Wait for the next event from the unbounded channel, in delivery (FIFO)
/// order. Returns `None` once the channel is closed or its producer end is
/// gone and every buffered event has been read.
///
/// Relies on `pollster::block_on` and `StreamExt::next`.
#[verifier::external_body]
pub(crate) fn unbounded_next<T>(rx: &mut futures::channel::mpsc::UnboundedReceiver<T>) -> Option<T> {
    pollster::block_on(futures::stream::StreamExt::next(rx))
}

/// Close the bounded channel from the consumer side: no new event can enter
/// it, but events already buffered can still be drained with the next
/// operation above.
///
/// Relies on `futures::channel::mpsc::Receiver::close`.
#[verifier::external_body]
pub(crate) fn bounded_rx_close<T>(rx: &mut futures::channel::mpsc::Receiver<T>) {
    rx.close()
}

/// Close the unbounded channel from the consumer side: no new event can
/// enter it, but events already buffered can still be drained with the next
/// operation above.
///
/// Relies on `futures::channel::mpsc::UnboundedReceiver::close`.
#[verifier::external_body]
pub(crate) fn unbounded_rx_close<T>(rx: &mut futures::channel::mpsc::UnboundedReceiver<T>) {
    rx.close()
}

} // verus!
