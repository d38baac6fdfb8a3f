//! The response path of a request: a one-shot sink that the stage fills once
//! the actor has handled the request, and the outcome that the caller sees.

use crate::error::{MessageError, MessageErrorCause};
use futures::channel::oneshot::{Canceled, Sender};
use vstd::prelude::*;

verus! {

#[verifier::external_type_specification]
#[verifier::external_body]
#[verifier::reject_recursive_types(T)]
pub struct ExResponseSender<T>(Sender<T>);

#[verifier::external_type_specification]
#[verifier::external_body]
pub struct ExCanceled(Canceled);

/// Relies on `oneshot::Sender::send`: the value is handed back in `Err` when the
/// receiving end was dropped before the call.
#[verifier::external_body]
fn send_response<T>(sink: Sender<T>, value: T) -> (r: Result<(), T>)
    ensures
        r matches Err(v) ==> v == value,
{
    sink.send(value)
}

/// Delivers the result of a request into its sink. When the caller has stopped
/// waiting, the result is discarded: that is no error. Returns whether the
/// result was delivered.
pub fn deliver_response<T>(sink: Sender<T>, value: T) -> (r: bool) {
    match send_response(sink, value) {
        Ok(()) => true,
        Err(_) => false,
    }
}

/// What a caller awaiting a response gets: the response, or, when the sink
/// was dropped unfilled (the actor stopped or failed before answering),
/// `ActorStopped`.
pub fn response_outcome<T>(got: Result<T, Canceled>) -> (r: Result<T, MessageError>)
    ensures
        got matches Ok(v) ==> r == Ok::<T, MessageError>(v),
        got is Err ==> (r matches Err(e) && e.spec_cause() == MessageErrorCause::ActorStopped),
{
    match got {
        Ok(v) => Ok(v),
        Err(_) => Err(MessageError::new(MessageErrorCause::ActorStopped)),
    }
}

} // verus!
