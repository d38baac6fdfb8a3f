//! Why a message could not be put in an actor's mailbox.

use futures::channel::mpsc::TrySendError;
use vstd::prelude::*;

verus! {

/// The cause of a failed send.
#[derive(PartialEq, Eq, Structural, Clone, Copy, Debug, Hash)]
#[non_exhaustive]
pub enum MessageErrorCause {
    /// The mailbox had no room left.
    MailboxFull,
    /// The actor is gone: its mailbox no longer takes messages, or it never
    /// answered a request.
    ActorStopped,
    /// The channel reported a failure that is neither of the above.
    Unknown,
}

/// A send to an actor failed.
#[derive(PartialEq, Eq, Structural, Clone, Copy, Debug, Hash)]
pub struct MessageError {
    cause: MessageErrorCause,
}

/// The cause of a failed send, from what the channel reported: a full mailbox
/// wins over a disconnected one, and a failure that is neither is unknown.
pub open spec fn cause_of(full: bool, disconnected: bool) -> MessageErrorCause {
    if full {
        MessageErrorCause::MailboxFull
    } else if disconnected {
        MessageErrorCause::ActorStopped
    } else {
        MessageErrorCause::Unknown
    }
}

#[verifier::external_type_specification]
#[verifier::external_body]
#[verifier::reject_recursive_types(T)]
pub struct ExTrySendError<T>(TrySendError<T>);

pub assume_specification<T>[ TrySendError::<T>::is_full ](e: &TrySendError<T>) -> (r: bool);

pub assume_specification<T>[ TrySendError::<T>::is_disconnected ](e: &TrySendError<T>) -> (r: bool);

impl MessageErrorCause {
    /// The sentence that describes this cause.
    pub fn describe(&self) -> (r: &'static str)
        ensures
            *self == MessageErrorCause::MailboxFull ==> r@ == "Message box was full"@,
            *self == MessageErrorCause::ActorStopped ==> r@ == "Actor was stopped"@,
            *self == MessageErrorCause::Unknown ==> r@ == "Unknown reason for message error"@,
    {
        match self {
            MessageErrorCause::MailboxFull => "Message box was full",
            MessageErrorCause::ActorStopped => "Actor was stopped",
            MessageErrorCause::Unknown => "Unknown reason for message error",
        }
    }
}

impl MessageError {
    /// The cause that this error carries.
    pub closed spec fn spec_cause(&self) -> MessageErrorCause {
        self.cause
    }

    pub fn new(cause: MessageErrorCause) -> (r: MessageError)
        ensures
            r.spec_cause() == cause,
    {
        MessageError { cause }
    }

    /// The error for a send that the channel refused as `full` and/or
    /// `disconnected`.
    pub fn from_flags(full: bool, disconnected: bool) -> (r: MessageError)
        ensures
            r.spec_cause() == cause_of(full, disconnected),
    {
        let cause = if full {
            MessageErrorCause::MailboxFull
        } else if disconnected {
            MessageErrorCause::ActorStopped
        } else {
            MessageErrorCause::Unknown
        };
        MessageError { cause }
    }

    /// The error for a send that the mailbox channel refused, classified by
    /// what the channel's error reports (see `from_flags`).
    pub fn from_send_error<T>(e: TrySendError<T>) -> (r: MessageError) {
        let full = e.is_full();
        let disconnected = e.is_disconnected();
        MessageError::from_flags(full, disconnected)
    }

    pub fn cause(&self) -> (r: MessageErrorCause)
        ensures
            r == self.spec_cause(),
    {
        self.cause
    }

    /// The sentence that describes this error.
    pub fn describe(&self) -> (r: &'static str)
        ensures
            self.spec_cause() == MessageErrorCause::MailboxFull ==> r@ == "Message box was full"@,
            self.spec_cause() == MessageErrorCause::ActorStopped ==> r@ == "Actor was stopped"@,
            self.spec_cause() == MessageErrorCause::Unknown ==> r@ == "Unknown reason for message error"@,
    {
        self.cause.describe()
    }
}

} // verus!
