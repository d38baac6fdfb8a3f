//! The mailbox: the bounded multi-producer, single-consumer channel of the
//! `futures` crate. What a send or a receive finds depends on every other task
//! that holds an end of the channel, so the contracts here state only what holds
//! of every outcome.

use futures::channel::mpsc::{self, Receiver, Sender, TryRecvError, TrySendError};
use vstd::prelude::*;

verus! {

#[verifier::external_type_specification]
#[verifier::external_body]
#[verifier::reject_recursive_types(T)]
pub struct ExSender<T>(Sender<T>);

#[verifier::external_type_specification]
#[verifier::external_body]
#[verifier::reject_recursive_types(T)]
pub struct ExReceiver<T>(Receiver<T>);

/// What a non-blocking receive found.
pub enum Fetched<T> {
    /// The oldest buffered item.
    Item(T),
    /// Nothing is buffered, and producers may still send.
    Empty,
    /// Nothing is buffered and the channel is closed: nothing will ever come.
    Closed,
}

/// Relies on `futures::channel::mpsc::channel`: a connected sender and
/// receiver. It panics on a buffer of `usize::MAX / 4` or more.
#[verifier::external_body]
pub(crate) fn channel<T>(buffer: usize) -> (r: (Sender<T>, Receiver<T>))
    requires
        buffer < usize::MAX / 4,
{
    mpsc::channel(buffer)
}

/// Relies on `Sender::try_send`: enqueues `msg` without waiting, or hands it
/// back in an error that says whether the channel was full or disconnected.
#[verifier::external_body]
pub(crate) fn try_send<T>(sender: &mut Sender<T>, msg: T) -> (r: Result<(), TrySendError<T>>) {
    sender.try_send(msg)
}

/// Relies on `Sender::clone`: another sender on the same channel.
#[verifier::external_body]
pub(crate) fn clone_sender<T>(sender: &Sender<T>) -> (r: Sender<T>) {
    sender.clone()
}

/// Relies on `Receiver::try_next`: the next buffered item, or whether the
/// channel is merely empty or empty and closed.
#[verifier::external_body]
#[allow(deprecated)]
pub(crate) fn try_receive<T>(receiver: &mut Receiver<T>) -> (r: Fetched<T>) {
    match receiver.try_next() {
        Ok(Some(item)) => Fetched::Item(item),
        Ok(None) => Fetched::Closed,
        Err(TryRecvError::Empty) => Fetched::Empty,
        Err(TryRecvError::Closed) => Fetched::Closed,
    }
}

/// Relies on `Receiver::close`: senders are refused from now on, while what is
/// already buffered can still be received.
#[verifier::external_body]
pub(crate) fn close<T>(receiver: &mut Receiver<T>) {
    receiver.close()
}

} // verus!
