//! An actor written out by hand in the shape that the code generator gives
//! every actor: the actor, one message descriptor per operation, and a proxy
//! type whose methods build a descriptor and send it.

use crate::error::MessageError;
use crate::proxy::ProxyFor;
use vstd::prelude::*;

verus! {

pub struct MyActor {
    pub id: usize,
}

/// The descriptor of `MyActor::multiple_params`, with its two arguments.
#[allow(non_camel_case_types)]
pub struct MyActor__multiple_params(pub usize, pub String);

/// A proxy to a `MyActor`; its mailbox carries `MyActor`'s descriptors.
pub struct MyActorProxy {
    inner: ProxyFor<MyActor__multiple_params>,
}

impl MyActor {
    pub fn new(id: usize) -> (r: MyActor)
        ensures
            r.id == id,
    {
        MyActor { id }
    }

    /// An operation with two arguments that leaves the actor as it is.
    pub fn multiple_params(&self, first: usize, second: String) {
    }
}

impl MyActor__multiple_params {
    /// Runs the operation against the actor, consuming the descriptor.
    pub fn handle(self, actor: &mut MyActor)
        ensures
            final(actor).id == old(actor).id,
    {
        actor.multiple_params(self.0, self.1)
    }
}

impl MyActorProxy {
    pub closed spec fn is_live(&self) -> bool {
        self.inner.is_live()
    }

    pub fn new(inner: ProxyFor<MyActor__multiple_params>) -> (r: MyActorProxy)
        requires
            inner.is_live(),
        ensures
            r.is_live(),
    {
        MyActorProxy { inner }
    }

    /// Another proxy to the same actor.
    pub fn duplicate(&self) -> (r: MyActorProxy)
        requires
            self.is_live(),
        ensures
            r.is_live(),
    {
        MyActorProxy { inner: self.inner.duplicate() }
    }

    /// Sends `multiple_params(first, second)` as a fire-and-forget message.
    pub fn multiple_params(&mut self, first: usize, second: String) -> (r: Result<(), MessageError>)
        ensures
            final(self).is_live() == old(self).is_live(),
    {
        self.inner.send_message(MyActor__multiple_params(first, second))
    }

    /// Gives up this proxy (see `ProxyFor::release`).
    pub fn release(&mut self)
        ensures
            !final(self).is_live(),
    {
        self.inner.release()
    }
}

} // verus!
