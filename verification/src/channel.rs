//! Trusted interface to the `crossbeam-channel` message transport.
//!
//! The channels are pure infrastructure: delivery is FIFO per channel,
//! `send` on an unbounded channel never blocks, and `recv` blocks until a
//! message arrives or every sender is gone. Whether any given call
//! succeeds depends on the peer's endpoint still being alive, which the
//! orchestrator cannot observe, so nothing is promised of the results
//! here; the verified protocol logic states what holds whatever came
//! back.

use vstd::prelude::*;

verus! {

/// The sending half of a `crossbeam-channel` channel.
#[verifier::external_type_specification]
#[verifier::external_body]
#[verifier::reject_recursive_types(T)]
pub struct ExSender<T>(crossbeam_channel::Sender<T>);

/// The receiving half of a `crossbeam-channel` channel.
#[verifier::external_type_specification]
#[verifier::external_body]
#[verifier::reject_recursive_types(T)]
pub struct ExReceiver<T>(crossbeam_channel::Receiver<T>);

/// `crossbeam-channel`'s send failure: the channel is disconnected and
/// the unsent message is handed back.
#[verifier::external_type_specification]
#[verifier::external_body]
#[verifier::reject_recursive_types(T)]
pub struct ExSendError<T>(crossbeam_channel::SendError<T>);

/// `crossbeam-channel`'s receive failure: the channel is empty and
/// disconnected.
#[verifier::external_type_specification]
#[verifier::external_body]
pub struct ExRecvError(crossbeam_channel::RecvError);

/// Relies on `crossbeam_channel::unbounded`: creates a connected,
/// unbounded, FIFO channel of which both halves can be handed to other
/// execution contexts.
pub assume_specification<T>[ crossbeam_channel::unbounded::<T> ]() -> (r: (
    crossbeam_channel::Sender<T>,
    crossbeam_channel::Receiver<T>,
));

/// Relies on `crossbeam_channel::Sender::send`: enqueues the message
/// without blocking (the channel is unbounded) and fails exactly when the
/// receiving half has been dropped.
pub assume_specification<T>[ crossbeam_channel::Sender::<T>::send ](
    s: &crossbeam_channel::Sender<T>,
    msg: T,
) -> (r: Result<(), crossbeam_channel::SendError<T>>);

/// Relies on `crossbeam_channel::Receiver::recv`: blocks until a message
/// is available, returning messages in the order they were sent, and fails
/// exactly when the channel is empty and every sender has been dropped.
pub assume_specification<T>[ crossbeam_channel::Receiver::<T>::recv ](
    r: &crossbeam_channel::Receiver<T>,
) -> (res: Result<T, crossbeam_channel::RecvError>);

} // verus!
