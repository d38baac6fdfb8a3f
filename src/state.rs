//! The actor lifecycle: `Building -> Built -> Running -> Stopping -> Stopped`.

use std::sync::atomic::{AtomicU8, Ordering};
use vstd::prelude::*;

verus! {

/// Where an actor is in its life. States are only ever entered in the order in
/// which the variants are declared.
#[derive(PartialEq, Eq, Structural, Clone, Copy, Debug, Hash)]
pub enum ActorState {
    Building,
    Built,
    Running,
    Stopping,
    Stopped,
}

/// Position of a state in the lifecycle.
pub open spec fn rank(s: ActorState) -> nat {
    match s {
        ActorState::Building => 0,
        ActorState::Built => 1,
        ActorState::Running => 2,
        ActorState::Stopping => 3,
        ActorState::Stopped => 4,
    }
}

/// The state whose position in the lifecycle is `b`, if there is one.
pub open spec fn state_of_byte(b: u8) -> Option<ActorState> {
    if b == 0 {
        Some(ActorState::Building)
    } else if b == 1 {
        Some(ActorState::Built)
    } else if b == 2 {
        Some(ActorState::Running)
    } else if b == 3 {
        Some(ActorState::Stopping)
    } else if b == 4 {
        Some(ActorState::Stopped)
    } else {
        None
    }
}

/// A stop request was made before the actor started running.
#[derive(PartialEq, Eq, Structural, Clone, Copy, Debug, Hash)]
pub struct StopError;

/// What a stop request does, given the state it observed.
pub open spec fn stop_result(s: ActorState) -> Result<(), StopError> {
    if rank(s) < 2 {
        Err(StopError)
    } else {
        Ok(())
    }
}

/// What a stop request does next, given the state it has just read.
#[derive(PartialEq, Eq, Structural, Clone, Copy, Debug)]
pub enum StopStep {
    /// The actor is running: try to move it to `Stopping`.
    Swap,
    /// The actor is already stopping or stopped: nothing left to do.
    AlreadyStopping,
    /// The actor has not started yet: the request fails.
    TooEarly,
}

/// A stop request fails exactly when it finds the actor still being built,
/// and succeeds on every state from `Running` on.
pub proof fn stop_refused_only_before_running(s: ActorState)
    ensures
        (stop_result(s) is Err) == (s == ActorState::Building || s == ActorState::Built),
        (stop_result(s) is Ok) == (rank(s) >= 2),
{
}

/// The lifecycle order is a total order with `Building` first and `Stopped`
/// last: any two states can be compared, and a state moves only to itself or
/// to a later one.
pub proof fn lifecycle_is_ordered(a: ActorState, b: ActorState)
    ensures
        rank(a) <= rank(b) || rank(b) <= rank(a),
        rank(a) == rank(b) ==> a == b,
        rank(ActorState::Building) <= rank(a) <= rank(ActorState::Stopped),
{
}

impl ActorState {
    /// The byte that stands for this state in a shared cell.
    pub fn to_byte(self) -> (r: u8)
        ensures
            r as nat == rank(self),
            state_of_byte(r) == Some(self),
    {
        match self {
            ActorState::Building => 0,
            ActorState::Built => 1,
            ActorState::Running => 2,
            ActorState::Stopping => 3,
            ActorState::Stopped => 4,
        }
    }

    /// The state that a byte stands for; `None` for a byte that no state uses.
    pub fn from_byte(b: u8) -> (r: Option<ActorState>)
        ensures
            r == state_of_byte(b),
            r matches Some(s) ==> rank(s) == b as nat,
    {
        if b == 0 {
            Some(ActorState::Building)
        } else if b == 1 {
            Some(ActorState::Built)
        } else if b == 2 {
            Some(ActorState::Running)
        } else if b == 3 {
            Some(ActorState::Stopping)
        } else if b == 4 {
            Some(ActorState::Stopped)
        } else {
            None
        }
    }

    /// Whether the lifecycle may move from `self` to `next`: never backwards.
    pub fn may_advance_to(self, next: ActorState) -> (r: bool)
        ensures
            r == (rank(self) <= rank(next)),
    {
        self.to_byte() <= next.to_byte()
    }
}

/// The decision of a stop request that has read `observed`.
pub fn stop_step(observed: ActorState) -> (r: StopStep)
    ensures
        (r == StopStep::Swap) == (observed == ActorState::Running),
        (r == StopStep::TooEarly) == (rank(observed) < 2),
        (r == StopStep::AlreadyStopping) == (rank(observed) > 2),
{
    match observed {
        ActorState::Building | ActorState::Built => StopStep::TooEarly,
        ActorState::Running => StopStep::Swap,
        ActorState::Stopping | ActorState::Stopped => StopStep::AlreadyStopping,
    }
}

/// Relies on `AtomicU8::compare_exchange`: the previous value comes back in `Ok`
/// when it equalled `current` and `new` was stored, and in `Err` otherwise.
#[verifier::external_body]
fn cell_compare_exchange(cell: &AtomicU8, current: u8, new: u8) -> (r: Result<u8, u8>)
    ensures
        r matches Ok(v) ==> v == current,
        r matches Err(v) ==> v != current,
{
    cell.compare_exchange(current, new, Ordering::SeqCst, Ordering::SeqCst)
}

/// The run state of one actor, shared between the stage that runs it and the
/// remotes that control it. Every byte ever stored is the byte of a state.
#[derive(Debug)]
pub struct RemoteState {
    state: AtomicU8,
}

impl RemoteState {
    pub fn new(state: ActorState) -> (r: RemoteState) {
        RemoteState { state: AtomicU8::new(state.to_byte()) }
    }

    /// Reads the current state. Other tasks may change it at any moment, so
    /// the result is a snapshot. (Only state bytes are ever stored; any other
    /// byte would read as the terminal state.)
    pub fn state(&self) -> (r: ActorState) {
        let raw = self.state.load(Ordering::SeqCst);
        match ActorState::from_byte(raw) {
            Some(s) => s,
            None => ActorState::Stopped,
        }
    }

    /// Stores `state`, returning the state it replaced.
    pub fn set_state(&self, state: ActorState) -> (r: ActorState) {
        let raw = self.state.swap(state.to_byte(), Ordering::SeqCst);
        match ActorState::from_byte(raw) {
            Some(s) => s,
            None => ActorState::Stopped,
        }
    }

    /// Asks the actor to stop after the envelope it is handling. Succeeds when
    /// the actor is running (it then moves to `Stopping`) or already stopping
    /// or stopped; fails with `StopError` while it is still being built.
    pub fn stop(&self) -> (r: Result<(), StopError>) {
        let mut observed = self.state();
        let mut attempts: u8 = 0;
        loop
            invariant
                attempts <= 1,
                attempts == 1 ==> observed != ActorState::Running,
            decreases 1 - attempts,
        {
            match stop_step(observed) {
                StopStep::TooEarly => {
                    return Err(StopError);
                },
                StopStep::AlreadyStopping => {
                    return Ok(());
                },
                StopStep::Swap => {
                    let running = ActorState::Running.to_byte();
                    let stopping = ActorState::Stopping.to_byte();
                    match cell_compare_exchange(&self.state, running, stopping) {
                        Ok(_) => {
                            return Ok(());
                        },
                        Err(raw) => {
                            // Another task changed the state between the read and
                            // the swap; decide again on what it holds now.
                            observed =
                                match ActorState::from_byte(raw) {
                                    Some(s) => s,
                                    None => ActorState::Stopped,
                                };
                            attempts = 1;
                        },
                    }
                },
            }
        }
    }
}

} // verus!
