//! The remote controller: the capability, usually held by the actor itself,
//! to read and change its own run state and to mint proxies to itself.

use crate::proxy::{ProxyFor, WeakProxyFor};
use crate::state::{ActorState, RemoteState, StopError};
use std::sync::Arc;
use vstd::prelude::*;

verus! {

/// Controls one actor. It holds only a weak proxy, so that an actor that keeps
/// its own remote is not kept alive by it.
#[verifier::reject_recursive_types(M)]
pub struct Remote<M> {
    inner: Arc<RemoteState>,
    proxy: WeakProxyFor<M>,
}

impl<M> Remote<M> {
    pub fn new(inner: Arc<RemoteState>, proxy: &ProxyFor<M>) -> (r: Remote<M>)
        requires
            proxy.is_live(),
    {
        Remote { inner, proxy: proxy.downgrade() }
    }

    /// A new proxy to the actor; `None` once the actor has stopped and every
    /// other proxy is gone, since a remote must not outlive its actor.
    pub fn proxy(&self) -> (r: Option<ProxyFor<M>>)
        ensures
            r matches Some(p) ==> p.is_live(),
    {
        self.proxy.upgrade()
    }

    /// Asks the actor to stop once the envelope it is handling is done. Fails
    /// with `StopError` when the actor has not started running yet; succeeds
    /// when it is running, stopping or stopped.
    pub fn stop(&self) -> (r: Result<(), StopError>) {
        self.inner.stop()
    }

    /// A snapshot of the actor's run state.
    pub fn state(&self) -> (r: ActorState) {
        self.inner.state()
    }
}

} // verus!
