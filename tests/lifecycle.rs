use futures::channel::oneshot;
use thespian::{
    deliver_response, ActorState, Envelope, Fetched, MessageErrorCause, ProxyFor, Remote,
    RemoteState, Stage, StageBuilder, StagePhase, StopError,
};

/// An actor that stops itself once its total passes a threshold.
pub struct SelfStopper {
    remote: Remote<StopperMessage>,
    total: usize,
    threshold: usize,
}

pub enum StopperMessage {
    Add(usize, oneshot::Sender<usize>),
}

impl SelfStopper {
    fn handle(&mut self, message: StopperMessage) {
        match message {
            StopperMessage::Add(value, sink) => {
                self.total += value;
                if self.total > self.threshold {
                    assert_eq!(Ok(()), self.remote.stop());
                }
                deliver_response(sink, self.total);
            }
        }
    }
}

fn handle_one(stage: &mut Stage<StopperMessage>, actor: &mut SelfStopper) -> bool {
    match stage.next_envelope() {
        Fetched::Item(envelope) => {
            if let Envelope::Message(message) = envelope {
                actor.handle(message);
            }
            stage.envelope_handled();
            true
        }
        Fetched::Empty => false,
        Fetched::Closed => false,
    }
}

fn add(proxy: &mut ProxyFor<StopperMessage>, value: usize) -> Result<oneshot::Receiver<usize>, thespian::MessageError> {
    let (sink, result) = oneshot::channel();
    proxy.send_message(StopperMessage::Add(value, sink))?;
    Ok(result)
}

#[test]
fn bootstrap_self_stop() {
    let (builder, remote) = StageBuilder::new();
    assert_eq!(ActorState::Building, remote.state());
    let mut actor = SelfStopper { remote, total: 0, threshold: 3 };
    let mut stage = builder.finish();
    assert_eq!(ActorState::Built, stage.state());
    stage.start();
    assert_eq!(ActorState::Running, stage.state());
    let mut proxy = stage.proxy();

    let mut answers = Vec::new();
    let mut refused = None;
    for _ in 0..10 {
        match add(&mut proxy, 1) {
            Ok(result) => answers.push(result),
            Err(e) => {
                refused = Some(e);
                break;
            }
        }
        handle_one(&mut stage, &mut actor);
    }

    // The fourth request crossed the threshold; the stage then closed its
    // mailbox, and the next request was refused.
    assert_eq!(4, answers.len());
    assert_eq!(MessageErrorCause::ActorStopped, refused.unwrap().cause());
    assert_eq!(StagePhase::Draining, stage.phase());
    assert!(matches!(stage.next_envelope(), Fetched::Closed));
    assert_eq!(StagePhase::Finished, stage.phase());
    assert_eq!(ActorState::Stopped, stage.state());
    for (i, mut result) in answers.into_iter().enumerate() {
        assert_eq!(Some(i + 1), result.try_recv().unwrap());
    }
}

#[test]
fn graceful_shutdown_on_abandonment() {
    let (builder, remote) = StageBuilder::<StopperMessage>::new();
    let mut stage = builder.finish();
    stage.start();
    let mut proxy = stage.proxy();
    let mut clone = proxy.duplicate();
    clone.release();
    proxy.release();

    // The release notices arrive; after them only the stage's proxy is live.
    let mut checkpoints = Vec::new();
    loop {
        match stage.next_envelope() {
            Fetched::Item(_) => {
                if stage.phase() == StagePhase::Receiving {
                    checkpoints.push(stage.after_envelope());
                }
            }
            Fetched::Empty => panic!("the stage should not wait"),
            Fetched::Closed => break,
        }
    }
    let last = checkpoints.last().unwrap();
    assert_eq!(1, last.live);
    assert!(!last.keep_receiving);
    assert_eq!(StagePhase::Finished, stage.phase());
    assert_eq!(ActorState::Stopped, remote.state());
    assert_eq!(Ok(()), remote.stop());

    // Once the stage is gone nothing can reach the actor.
    drop(stage);
    assert!(remote.proxy().is_none());
}

#[test]
fn remote_proxy_reaches_a_live_actor() {
    let (builder, remote) = StageBuilder::<StopperMessage>::new();
    let mut stage = builder.finish();
    stage.start();
    let mut proxy = remote.proxy().unwrap();
    assert_eq!(2, proxy.count());
    let result = add(&mut proxy, 1);
    assert!(result.is_ok());
    assert!(matches!(stage.next_envelope(), Fetched::Item(Envelope::Message(_))));
}

#[test]
fn stop_before_running_fails() {
    let (builder, remote) = StageBuilder::<StopperMessage>::new();
    assert_eq!(Err(StopError), remote.stop());
    let mut stage = builder.finish();
    assert_eq!(Err(StopError), remote.stop());
    stage.start();
    assert_eq!(Ok(()), remote.stop());
    assert_eq!(ActorState::Stopping, remote.state());
    assert_eq!(Ok(()), remote.stop());
    assert_eq!(ActorState::Stopping, remote.state());
}

#[test]
fn stop_from_every_state() {
    let cases = [
        (ActorState::Building, Err(StopError), ActorState::Building),
        (ActorState::Built, Err(StopError), ActorState::Built),
        (ActorState::Running, Ok(()), ActorState::Stopping),
        (ActorState::Stopping, Ok(()), ActorState::Stopping),
        (ActorState::Stopped, Ok(()), ActorState::Stopped),
    ];
    for (start, outcome, after) in cases {
        let cell = RemoteState::new(start);
        assert_eq!(outcome, cell.stop());
        assert_eq!(after, cell.state());
    }
}

#[test]
fn set_state_returns_previous() {
    let cell = RemoteState::new(ActorState::Building);
    assert_eq!(ActorState::Building, cell.set_state(ActorState::Built));
    assert_eq!(ActorState::Built, cell.set_state(ActorState::Running));
    assert_eq!(ActorState::Running, cell.state());
}

#[test]
fn state_bytes_round_trip() {
    let states = [
        ActorState::Building,
        ActorState::Built,
        ActorState::Running,
        ActorState::Stopping,
        ActorState::Stopped,
    ];
    for (i, s) in states.iter().enumerate() {
        assert_eq!(i as u8, s.to_byte());
        assert_eq!(Some(*s), ActorState::from_byte(i as u8));
    }
    assert_eq!(None, ActorState::from_byte(5));
    assert_eq!(None, ActorState::from_byte(255));
    assert!(ActorState::Built.may_advance_to(ActorState::Running));
    assert!(ActorState::Running.may_advance_to(ActorState::Running));
    assert!(!ActorState::Stopping.may_advance_to(ActorState::Running));
}

#[test]
fn stage_closes_when_stopping() {
    assert!(thespian::stage::close_after_envelope(ActorState::Stopping, 5));
    assert!(thespian::stage::close_after_envelope(ActorState::Running, 1));
    assert!(!thespian::stage::close_after_envelope(ActorState::Running, 2));
}
