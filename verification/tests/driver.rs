use transfer_race::codec::{ByteStream, Codec, IoError};
use transfer_race::driver::Driver;
use transfer_race::protocol::{transition, Action, Event, PeerState, RaceOutcome, Role};

const PEER: u64 = 42;
const CHANNEL: u64 = 9;

/// Scenario A: a transfer of one chunk with a generous idle timeout
/// (10000 ms). The response body crosses the loopback stream whole before
/// the idle timer can fire, so the initiator reports that the response was
/// observed.
#[test]
fn scenario_small_transfer_response_observed() {
    let transfer_size: u64 = 1;
    let codec = Codec::new(transfer_size);

    let mut initiator = Driver::new(Role::Initiator);
    let mut responder = Driver::new(Role::Responder);

    // Both ends see the connection come up; only the initiator requests.
    assert_eq!(
        initiator.handle_event(Event::ConnectionEstablished { peer: PEER }),
        Action::SendRequest { peer: PEER }
    );
    assert_eq!(
        responder.handle_event(Event::ConnectionEstablished { peer: PEER }),
        Action::NoOp
    );

    // The empty request reaches the responder, which replies at once.
    assert_eq!(
        responder.handle_event(Event::InboundRequest { peer: PEER, channel: CHANNEL }),
        Action::SendReply { channel: CHANNEL }
    );

    // The reply body crosses the loopback stream in full.
    let mut stream = ByteStream::new();
    assert!(codec.write_response(&mut stream).is_ok());
    assert_eq!(
        responder.handle_event(Event::ReplyWritten { peer: PEER, ok: true }),
        Action::NoOp
    );
    assert_eq!(responder.state_of(PEER), PeerState::ResponseSent);

    // The initiator's correlated read succeeds: verdict ResponseObserved.
    let read_ok = codec.read_response(&mut stream).is_ok();
    assert!(read_ok);
    assert_eq!(
        initiator.handle_event(Event::ResponseRead { peer: PEER, ok: read_ok }),
        Action::Report { peer: PEER, outcome: RaceOutcome::ResponseObserved }
    );

    // The idle timer closing the connection afterwards changes nothing.
    assert_eq!(
        initiator.handle_event(Event::ConnectionClosed { peer: PEER }),
        Action::NoOp
    );
    assert_eq!(initiator.outcome_of(PEER), Some(RaceOutcome::ResponseObserved));
    // The responder never computes a verdict.
    assert_eq!(responder.outcome_of(PEER), None);
}

/// Scenario B: a transfer of 100000 chunks against a 1 ms idle timeout. The
/// idle timer fires mid-transfer, the transport delivers only part of the
/// body before closing, the correlated read fails, and the initiator
/// reports that the connection closed before the response.
#[test]
fn scenario_large_transfer_closed_before_response() {
    let transfer_size: u64 = 100000;
    let codec = Codec::new(transfer_size);

    let mut initiator = Driver::new(Role::Initiator);
    assert_eq!(
        initiator.handle_event(Event::ConnectionEstablished { peer: PEER }),
        Action::SendRequest { peer: PEER }
    );

    // The idle timer fires mid-transfer: only a handful of the 100000
    // chunks are ever delivered, then the transport closes the stream.
    let mut stream = ByteStream::new();
    assert!(transfer_race::codec::write_body(&mut stream, 5).is_ok());
    stream.close();

    // The correlated read must surface the truncation as a failure.
    assert_eq!(codec.read_response(&mut stream), Err(IoError));
    assert_eq!(
        initiator.handle_event(Event::ResponseRead { peer: PEER, ok: false }),
        Action::NoOp
    );
    assert_eq!(initiator.outcome_of(PEER), None);

    // The closure signal then decides the race.
    assert_eq!(
        initiator.handle_event(Event::ConnectionClosed { peer: PEER }),
        Action::Report { peer: PEER, outcome: RaceOutcome::ClosedBeforeResponse }
    );
    assert_eq!(initiator.outcome_of(PEER), Some(RaceOutcome::ClosedBeforeResponse));
}

/// Once a verdict is recorded for a peer, later events for that peer
/// neither change it nor re-report it.
#[test]
fn verdict_is_idempotent() {
    let mut d = Driver::new(Role::Initiator);
    d.handle_event(Event::ConnectionEstablished { peer: PEER });
    assert_eq!(
        d.handle_event(Event::ConnectionClosed { peer: PEER }),
        Action::Report { peer: PEER, outcome: RaceOutcome::ClosedBeforeResponse }
    );
    // A late successful read, another closure, even a fresh establishment:
    // the verdict stands and nothing is re-reported.
    assert_eq!(d.handle_event(Event::ResponseRead { peer: PEER, ok: true }), Action::NoOp);
    assert_eq!(d.handle_event(Event::ConnectionClosed { peer: PEER }), Action::NoOp);
    assert_eq!(
        d.handle_event(Event::ConnectionEstablished { peer: PEER }),
        Action::NoOp
    );
    assert_eq!(d.outcome_of(PEER), Some(RaceOutcome::ClosedBeforeResponse));
}

/// A failed read never decides the race on its own; only the closure
/// signal does.
#[test]
fn failed_read_alone_decides_nothing() {
    let mut d = Driver::new(Role::Initiator);
    d.handle_event(Event::ConnectionEstablished { peer: PEER });
    assert_eq!(d.handle_event(Event::ResponseRead { peer: PEER, ok: false }), Action::NoOp);
    assert_eq!(d.outcome_of(PEER), None);
    assert_eq!(d.state_of(PEER), PeerState::RequestSent);
}

/// A responder-side write failure is fatal for the run, not race evidence.
#[test]
fn responder_write_failure_is_fatal() {
    let mut d = Driver::new(Role::Responder);
    d.handle_event(Event::ConnectionEstablished { peer: PEER });
    assert_eq!(
        d.handle_event(Event::InboundRequest { peer: PEER, channel: CHANNEL }),
        Action::SendReply { channel: CHANNEL }
    );
    assert_eq!(d.state_of(PEER), PeerState::RequestReceived);
    assert_eq!(
        d.handle_event(Event::ReplyWritten { peer: PEER, ok: false }),
        Action::FatalError { peer: PEER }
    );
    // The responder never reports a race verdict, even on closure.
    assert_eq!(d.handle_event(Event::ConnectionClosed { peer: PEER }), Action::NoOp);
    assert_eq!(d.outcome_of(PEER), None);
}

/// Verdicts are kept per peer: deciding one connection's race leaves
/// another untouched.
#[test]
fn peers_are_tracked_independently() {
    let other: u64 = 7;
    let mut d = Driver::new(Role::Initiator);
    d.handle_event(Event::ConnectionEstablished { peer: PEER });
    d.handle_event(Event::ConnectionEstablished { peer: other });
    d.handle_event(Event::ResponseRead { peer: PEER, ok: true });
    assert_eq!(d.outcome_of(PEER), Some(RaceOutcome::ResponseObserved));
    assert_eq!(d.outcome_of(other), None);
    assert_eq!(d.state_of(other), PeerState::RequestSent);
    d.handle_event(Event::ConnectionClosed { peer: other });
    assert_eq!(d.outcome_of(other), Some(RaceOutcome::ClosedBeforeResponse));
    assert_eq!(d.outcome_of(PEER), Some(RaceOutcome::ResponseObserved));
}

/// The per-connection state machine: terminal states absorb every event.
#[test]
fn terminal_states_absorb() {
    let events = [
        Event::ConnectionEstablished { peer: PEER },
        Event::InboundRequest { peer: PEER, channel: CHANNEL },
        Event::ReplyWritten { peer: PEER, ok: true },
        Event::ResponseRead { peer: PEER, ok: true },
        Event::ConnectionClosed { peer: PEER },
    ];
    for ev in events {
        assert_eq!(
            transition(Role::Initiator, PeerState::ResponseComplete, ev),
            PeerState::ResponseComplete
        );
        assert_eq!(
            transition(Role::Initiator, PeerState::ConnectionClosed, ev),
            PeerState::ConnectionClosed
        );
    }
}

/// The initiating side's path through the state machine.
#[test]
fn initiator_state_path() {
    let s0 = PeerState::Idle;
    let s1 = transition(Role::Initiator, s0, Event::ConnectionEstablished { peer: PEER });
    assert_eq!(s1, PeerState::RequestSent);
    let s2 = transition(Role::Initiator, s1, Event::ResponseRead { peer: PEER, ok: true });
    assert_eq!(s2, PeerState::ResponseComplete);
    // The alternative terminal: closure while the request is in flight.
    let s2b = transition(Role::Initiator, s1, Event::ConnectionClosed { peer: PEER });
    assert_eq!(s2b, PeerState::ConnectionClosed);
}

/// The receiving side's path through the state machine.
#[test]
fn responder_state_path() {
    let s0 = PeerState::Idle;
    // A responder does not issue a request when the connection comes up.
    let s1 = transition(Role::Responder, s0, Event::ConnectionEstablished { peer: PEER });
    assert_eq!(s1, PeerState::Idle);
    let s2 = transition(Role::Responder, s1, Event::InboundRequest { peer: PEER, channel: CHANNEL });
    assert_eq!(s2, PeerState::RequestReceived);
    let s3 = transition(Role::Responder, s2, Event::ReplyWritten { peer: PEER, ok: true });
    assert_eq!(s3, PeerState::ResponseSent);
}
