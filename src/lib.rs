//! A single-actor runtime: an actor's state is driven only through messages that
//! arrive, in order, on a bounded mailbox, while any number of cloneable proxies
//! on other tasks feed that mailbox.
//!
//! The lifecycle machinery is verified here: the actor state machine and the
//! shared cell that holds it, the stop protocol, the classification of mailbox
//! failures, the live-handle bookkeeping of proxies, and the decisions of the
//! stage's receive loop. The mailbox itself is the bounded channel of the
//! `futures` crate.

pub mod error;
pub mod mailbox;
pub mod my_actor;
pub mod proxy;
pub mod remote;
pub mod request;
pub mod stage;
pub mod state;

pub use crate::error::{MessageError, MessageErrorCause};
pub use crate::mailbox::Fetched;
pub use crate::my_actor::{MyActor, MyActorProxy, MyActor__multiple_params};
pub use crate::proxy::{Envelope, ProxyFor, WeakProxyFor};
pub use crate::remote::Remote;
pub use crate::request::{deliver_response, response_outcome};
pub use crate::stage::{Checkpoint, Stage, StageBuilder, StagePhase, MAILBOX_BUFFER};
pub use crate::state::{ActorState, RemoteState, StopError};
