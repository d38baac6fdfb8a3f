//! The stage: the owner of an actor's mailbox consumer, and the driver of its
//! lifecycle. The stage decides; whoever runs it (an async task, or a test
//! driving it by hand) fetches envelopes through it, has the actor handle each
//! one, and reports back after each.

use crate::mailbox::{channel, close, try_receive, Fetched};
use crate::proxy::{Envelope, ProxyFor};
use crate::remote::Remote;
use crate::state::{ActorState, RemoteState};
use futures::channel::mpsc::Receiver;
use std::sync::Arc;
use vstd::prelude::*;

verus! {

/// The slots of a mailbox that all senders share; each sender also has one
/// slot of its own.
pub const MAILBOX_BUFFER: usize = 16;

/// Where a stage is in its run.
#[derive(PartialEq, Eq, Structural, Clone, Copy, Debug)]
pub enum StagePhase {
    /// Built, not started.
    Ready,
    /// Taking envelopes from an open mailbox.
    Receiving,
    /// The mailbox is closed; handling what was buffered before the close.
    Draining,
    /// Every envelope is handled and the actor is `Stopped`.
    Finished,
}

/// Position of a phase in a run; a run never goes back.
pub open spec fn phase_rank(p: StagePhase) -> nat {
    match p {
        StagePhase::Ready => 0,
        StagePhase::Receiving => 1,
        StagePhase::Draining => 2,
        StagePhase::Finished => 3,
    }
}

/// Whether a stage that has just handled an envelope stops receiving: the actor
/// was asked to stop, or the stage's own proxy is the only live one, so no
/// other task can ever send again.
pub open spec fn should_close(state: ActorState, live: usize) -> bool {
    state == ActorState::Stopping || live == 1
}

/// A stage whose own proxy is the only live one stops receiving after the
/// envelope in hand, whatever the actor's state: no other task can reach the
/// mailbox any more.
pub proof fn abandoned_stage_stops_receiving(state: ActorState)
    ensures
        should_close(state, 1),
{
}

/// An actor that is `Stopping` stops receiving after the envelope in hand,
/// however many proxies are still live; while it runs with other proxies
/// live, it keeps receiving.
pub proof fn stopping_stage_stops_receiving(live: usize)
    ensures
        should_close(ActorState::Stopping, live),
        live > 1 ==> !should_close(ActorState::Running, live),
{
}

/// The decision taken after each envelope, from the state and the live-handle
/// count that the stage read.
pub fn close_after_envelope(state: ActorState, live: usize) -> (r: bool)
    ensures
        r == should_close(state, live),
{
    state == ActorState::Stopping || live == 1
}

/// The first half of building a stage, for an actor that needs a remote to
/// itself before it exists.
#[verifier::reject_recursive_types(M)]
pub struct StageBuilder<M> {
    remote: Arc<RemoteState>,
    receiver: Receiver<Envelope<M>>,
    proxy: ProxyFor<M>,
}

impl<M> StageBuilder<M> {
    pub closed spec fn wf(&self) -> bool {
        self.proxy.is_live()
    }

    /// Makes the shared state cell (in `Building`), the mailbox and the first
    /// proxy, and returns the builder that keeps them with the remote that the
    /// actor may keep.
    pub fn new() -> (r: (StageBuilder<M>, Remote<M>))
        ensures
            r.0.wf(),
    {
        let remote_state = Arc::new(RemoteState::new(ActorState::Building));
        let (sender, receiver) = channel(MAILBOX_BUFFER);
        let proxy = ProxyFor::new(sender);
        let remote = Remote::new(Arc::clone(&remote_state), &proxy);
        (StageBuilder { remote: remote_state, receiver, proxy }, remote)
    }

    /// Completes the stage once the actor exists; the actor is then `Built`.
    pub fn finish(self) -> (r: Stage<M>)
        requires
            self.wf(),
        ensures
            r.wf(),
            r.spec_phase() == StagePhase::Ready,
    {
        let _ = self.remote.set_state(ActorState::Built);
        Stage { receiver: self.receiver, proxy: self.proxy, remote: self.remote, phase: StagePhase::Ready }
    }
}

/// Owns the consumer end of an actor's mailbox and one proxy to it, which is
/// why the live-handle count never reaches zero while the stage exists.
#[verifier::reject_recursive_types(M)]
pub struct Stage<M> {
    receiver: Receiver<Envelope<M>>,
    proxy: ProxyFor<M>,
    remote: Arc<RemoteState>,
    phase: StagePhase,
}

impl<M> Stage<M> {
    pub closed spec fn wf(&self) -> bool {
        self.proxy.is_live()
    }

    pub closed spec fn spec_phase(&self) -> StagePhase {
        self.phase
    }

    pub fn phase(&self) -> (r: StagePhase)
        ensures
            r == self.spec_phase(),
    {
        self.phase
    }

    /// A new proxy to the actor.
    pub fn proxy(&self) -> (r: ProxyFor<M>)
        requires
            self.wf(),
        ensures
            r.is_live(),
    {
        self.proxy.duplicate()
    }

    /// A snapshot of the actor's run state.
    pub fn state(&self) -> (r: ActorState) {
        self.remote.state()
    }

    /// Enters the receive loop: the actor is now `Running`.
    pub fn start(&mut self)
        requires
            old(self).spec_phase() == StagePhase::Ready,
        ensures
            final(self).spec_phase() == StagePhase::Receiving,
            phase_rank(old(self).spec_phase()) < phase_rank(final(self).spec_phase()),
            final(self).wf() == old(self).wf(),
    {
        let _ = self.remote.set_state(ActorState::Running);
        self.phase = StagePhase::Receiving;
    }

    /// Takes what a fetch from the mailbox found, and advances the run: a
    /// closed and empty mailbox means that every envelope has been handled, so
    /// the actor is `Stopped` and the run is over. The fetched value is handed
    /// back for the caller to dispatch.
    pub fn receive(&mut self, got: Fetched<Envelope<M>>) -> (r: Fetched<Envelope<M>>)
        requires
            old(self).spec_phase() == StagePhase::Receiving
                || old(self).spec_phase() == StagePhase::Draining,
        ensures
            final(self).wf() == old(self).wf(),
            phase_rank(old(self).spec_phase()) <= phase_rank(final(self).spec_phase()),
            r == got,
            got is Closed ==> final(self).spec_phase() == StagePhase::Finished,
            !(got is Closed) ==> final(self).spec_phase() == old(self).spec_phase(),
    {
        match got {
            Fetched::Closed => {
                close(&mut self.receiver);
                let _ = self.remote.set_state(ActorState::Stopped);
                self.phase = StagePhase::Finished;
                Fetched::Closed
            },
            other => other,
        }
    }

    /// Fetches the next envelope without waiting (`Empty` when none is
    /// buffered yet) and advances the run as `receive` does.
    pub fn next_envelope(&mut self) -> (r: Fetched<Envelope<M>>)
        requires
            old(self).spec_phase() == StagePhase::Receiving
                || old(self).spec_phase() == StagePhase::Draining,
        ensures
            final(self).wf() == old(self).wf(),
            phase_rank(old(self).spec_phase()) <= phase_rank(final(self).spec_phase()),
            r is Closed ==> final(self).spec_phase() == StagePhase::Finished,
            !(r is Closed) ==> final(self).spec_phase() == old(self).spec_phase(),
    {
        let got = try_receive(&mut self.receiver);
        self.receive(got)
    }

    /// The check after each handled envelope while receiving: when the actor
    /// was asked to stop, or no proxy but the stage's own is left, the mailbox
    /// is closed to producers and the stage moves on to draining it. Reports
    /// what it read and whether the stage keeps receiving.
    pub fn after_envelope(&mut self) -> (r: Checkpoint)
        requires
            old(self).wf(),
            old(self).spec_phase() == StagePhase::Receiving,
        ensures
            final(self).wf(),
            phase_rank(old(self).spec_phase()) <= phase_rank(final(self).spec_phase()),
            r.live >= 1,
            r.keep_receiving == !should_close(r.state, r.live),
            r.keep_receiving ==> final(self).spec_phase() == StagePhase::Receiving,
            !r.keep_receiving ==> final(self).spec_phase() == StagePhase::Draining,
    {
        let state = self.remote.state();
        let live = self.proxy.count();
        let stop = close_after_envelope(state, live);
        if stop {
            close(&mut self.receiver);
            self.phase = StagePhase::Draining;
        }
        Checkpoint { state, live, keep_receiving: !stop }
    }

    /// Reports that the actor has finished handling an envelope. While
    /// receiving, this is the check of `after_envelope`, whose report comes
    /// back; while draining there is nothing to decide.
    pub fn envelope_handled(&mut self) -> (r: Option<Checkpoint>)
        requires
            old(self).wf(),
            old(self).spec_phase() == StagePhase::Receiving
                || old(self).spec_phase() == StagePhase::Draining,
        ensures
            final(self).wf(),
            phase_rank(old(self).spec_phase()) <= phase_rank(final(self).spec_phase()),
            old(self).spec_phase() == StagePhase::Draining ==> r is None && final(self).spec_phase()
                == StagePhase::Draining,
            old(self).spec_phase() == StagePhase::Receiving ==> (r matches Some(c) && c.keep_receiving
                == !should_close(c.state, c.live) && (c.keep_receiving ==> final(self).spec_phase()
                == StagePhase::Receiving) && (!c.keep_receiving ==> final(self).spec_phase()
                == StagePhase::Draining)),
    {
        if self.phase == StagePhase::Receiving {
            Some(self.after_envelope())
        } else {
            None
        }
    }

    /// The consumer end of the mailbox, for a runner that waits on it; what it
    /// yields goes through `receive`.
    pub fn receiver_mut(&mut self) -> (r: &mut Receiver<Envelope<M>>) {
        &mut self.receiver
    }
}

/// What a stage read after an envelope, and what it decided.
#[derive(PartialEq, Eq, Structural, Clone, Copy, Debug)]
pub struct Checkpoint {
    pub state: ActorState,
    pub live: usize,
    pub keep_receiving: bool,
}

} // verus!
