//! Proxies: the cloneable front doors to an actor's mailbox.
//!
//! Every strong proxy shares one reference-counted cell; the number of strong
//! references to it is the number of live proxies, the stage's own included.
//! A weak proxy observes that cell without keeping the actor reachable.

use crate::error::MessageError;
use crate::mailbox::{clone_sender, try_send};
use futures::channel::mpsc::Sender;
use std::sync::{Arc, Weak};
use vstd::prelude::*;

verus! {

/// What travels through a mailbox.
pub enum Envelope<M> {
    /// An operation for the actor, with its arguments and, for a request, the
    /// sink for its response.
    Message(M),
    /// A proxy was dropped: the live-handle count went down.
    ProxyDropped,
}

/// Relies on `Arc::strong_count`: how many strong references share the cell;
/// `count` is one of them.
#[verifier::external_body]
fn strong_count(count: &Arc<()>) -> (r: usize)
    ensures
        r >= 1,
{
    Arc::strong_count(count)
}

/// Relies on `Arc::clone`: one more strong reference to the same cell.
#[verifier::external_body]
fn share_count(count: &Arc<()>) -> (r: Arc<()>) {
    Arc::clone(count)
}

/// A non-owning reference to the live-handle cell. (Verus takes no declaration
/// of `std::sync::Weak`, whose allocator parameter it cannot match, so the
/// reference is held here, behind the two functions below.)
#[verifier::external_body]
struct WeakCount {
    cell: Weak<()>,
}

/// Relies on `Arc::downgrade`: a weak reference to the same cell.
#[verifier::external_body]
fn downgrade_count(count: &Arc<()>) -> (r: WeakCount) {
    WeakCount { cell: Arc::downgrade(count) }
}

/// Relies on `Weak::upgrade`: a new strong reference, unless every strong
/// reference to the cell is already gone.
#[verifier::external_body]
fn upgrade_count(weak: &WeakCount) -> (r: Option<Arc<()>>) {
    weak.cell.upgrade()
}

/// A strong handle to an actor's mailbox.
#[verifier::reject_recursive_types(M)]
pub struct ProxyFor<M> {
    sink: Sender<Envelope<M>>,
    // `None` only once the proxy has been released, so that the count can be
    // dropped before the stage hears of the release.
    proxy_count: Option<Arc<()>>,
}

impl<M> ProxyFor<M> {
    /// Whether this proxy still holds its share of the live-handle count.
    pub closed spec fn is_live(&self) -> bool {
        self.proxy_count is Some
    }

    /// The first proxy of a mailbox: it starts a new live-handle count.
    pub fn new(sink: Sender<Envelope<M>>) -> (r: ProxyFor<M>)
        ensures
            r.is_live(),
    {
        ProxyFor { sink, proxy_count: Some(Arc::new(())) }
    }

    /// Another proxy to the same actor, counted as one more live handle.
    pub fn duplicate(&self) -> (r: ProxyFor<M>)
        requires
            self.is_live(),
        ensures
            r.is_live(),
    {
        let count = share_count(self.proxy_count.as_ref().unwrap());
        ProxyFor { sink: clone_sender(&self.sink), proxy_count: Some(count) }
    }

    /// Sends a fire-and-forget message or a request without waiting: when the
    /// mailbox is full or the actor is gone the send fails at once, which is
    /// what keeps two actors that call each other from deadlocking.
    pub fn send_message(&mut self, message: M) -> (r: Result<(), MessageError>)
        ensures
            final(self).is_live() == old(self).is_live(),
    {
        match try_send(&mut self.sink, Envelope::Message(message)) {
            Ok(()) => Ok(()),
            Err(e) => Err(MessageError::from_send_error(e)),
        }
    }

    /// The number of live proxies to this actor, this one included.
    pub fn count(&self) -> (r: usize)
        requires
            self.is_live(),
        ensures
            r >= 1,
    {
        strong_count(self.proxy_count.as_ref().unwrap())
    }

    /// A weak proxy to the same actor, which does not count as a live handle.
    pub fn downgrade(&self) -> (r: WeakProxyFor<M>)
        requires
            self.is_live(),
    {
        let count = downgrade_count(self.proxy_count.as_ref().unwrap());
        WeakProxyFor { sink: clone_sender(&self.sink), proxy_count: count }
    }

    /// Gives up this proxy's share of the live-handle count, then tells the
    /// stage so. The notice is best effort: when the mailbox is full it is
    /// dropped, and the stage still sees the lower count after its next
    /// envelope. Releasing a released proxy does nothing.
    pub fn release(&mut self)
        ensures
            !final(self).is_live(),
    {
        if self.proxy_count.is_some() {
            let count = self.proxy_count.take();
            drop_count(count);
            let _ = try_send(&mut self.sink, Envelope::ProxyDropped);
        }
    }
}

/// Drops a share of the live-handle count.
fn drop_count(count: Option<Arc<()>>) {
}

/// A weak handle to an actor's mailbox.
#[verifier::reject_recursive_types(M)]
pub struct WeakProxyFor<M> {
    sink: Sender<Envelope<M>>,
    proxy_count: WeakCount,
}

impl<M> WeakProxyFor<M> {
    /// A strong proxy, unless every strong proxy is already gone: then there
    /// is no path left to the actor.
    pub fn upgrade(&self) -> (r: Option<ProxyFor<M>>)
        ensures
            r matches Some(p) ==> p.is_live(),
    {
        match upgrade_count(&self.proxy_count) {
            Some(count) => Some(ProxyFor { sink: clone_sender(&self.sink), proxy_count: Some(count) }),
            None => None,
        }
    }
}

} // verus!
