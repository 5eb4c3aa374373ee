//! Connection-lifecycle driver: consumes the transport's interleaved event
//! stream, drives the protocol state machine, and decides the race verdict.
//!
//! The driver's whole behaviour is pinned to a ghost model: every call of
//! [`Driver::handle_event`] performs exactly one [`step`] of the model and
//! returns exactly the action [`step_action`] prescribes. The laws at the
//! bottom of the module state the race guarantees over whole event traces.

use vstd::prelude::*;
use std::collections::HashMap;
use crate::protocol::{Action, Event, PeerState, RaceOutcome, Role, next_state};

verus! {

broadcast use vstd::std_specs::hash::group_hash_axioms;

/// The ghost state of a driver: its role, the per-peer connection states,
/// and the verdicts decided so far. A peer absent from `states` is `Idle`.
pub struct DriverModel {
    /// Which side of the exchange this process plays.
    pub role: Role,
    /// The protocol state of each peer connection seen so far.
    pub states: Map<u64, PeerState>,
    /// The verdict decided for each peer, immutable once recorded.
    pub outcomes: Map<u64, RaceOutcome>,
}

impl DriverModel {
    /// The connection state of `p`; peers never seen are `Idle`.
    pub open spec fn state_of(self, p: u64) -> PeerState {
        if self.states.contains_key(p) {
            self.states[p]
        } else {
            PeerState::Idle
        }
    }

    /// The verdict recorded for `p`, if one was decided.
    pub open spec fn outcome_of(self, p: u64) -> Option<RaceOutcome> {
        if self.outcomes.contains_key(p) {
            Some(self.outcomes[p])
        } else {
            None
        }
    }
}

/// The peer an event concerns.
pub open spec fn event_peer(ev: Event) -> u64 {
    match ev {
        Event::ConnectionEstablished { peer } => peer,
        Event::InboundRequest { peer, .. } => peer,
        Event::ReplyWritten { peer, .. } => peer,
        Event::ResponseRead { peer, .. } => peer,
        Event::ConnectionClosed { peer } => peer,
    }
}

/// Whether consuming `ev` in model `m` decides a verdict, and which. A
/// verdict is decided only by the initiator, only while a request is still
/// in flight, and only once per peer: a successful correlated read decides
/// `ResponseObserved`; a closure signal with no verdict yet decides
/// `ClosedBeforeResponse`.
pub open spec fn decided_outcome(m: DriverModel, ev: Event) -> Option<RaceOutcome> {
    if m.role == Role::Initiator && m.state_of(event_peer(ev)) == PeerState::RequestSent
        && m.outcome_of(event_peer(ev)) is None {
        match ev {
            Event::ResponseRead { ok, .. } => if ok {
                Some(RaceOutcome::ResponseObserved)
            } else {
                None
            },
            Event::ConnectionClosed { .. } => Some(RaceOutcome::ClosedBeforeResponse),
            _ => None,
        }
    } else {
        None
    }
}

/// One step of the driver's ghost model: the event's peer moves along the
/// protocol state machine, and a verdict is recorded when `ev` decides one.
pub open spec fn step(m: DriverModel, ev: Event) -> DriverModel {
    let p = event_peer(ev);
    let states = m.states.insert(p, next_state(m.role, m.state_of(p), ev));
    let outcomes = match decided_outcome(m, ev) {
        Some(o) => m.outcomes.insert(p, o),
        None => m.outcomes,
    };
    DriverModel { role: m.role, states, outcomes }
}

/// The action the driver owes its caller after consuming `ev`: issue the
/// request on a fresh connection (initiator only), reply immediately to any
/// inbound request, report a verdict the moment it is decided, and surface a
/// reply-side write failure as fatal.
pub open spec fn step_action(m: DriverModel, ev: Event) -> Action {
    match ev {
        Event::ConnectionEstablished { peer } => if m.role == Role::Initiator && m.state_of(peer)
            == PeerState::Idle {
            Action::SendRequest { peer }
        } else {
            Action::NoOp
        },
        Event::InboundRequest { channel, .. } => Action::SendReply { channel },
        Event::ReplyWritten { peer, ok } => if !ok && m.state_of(peer)
            == PeerState::RequestReceived {
            Action::FatalError { peer }
        } else {
            Action::NoOp
        },
        _ => match decided_outcome(m, ev) {
            Some(o) => Action::Report { peer: event_peer(ev), outcome: o },
            None => Action::NoOp,
        },
    }
}

/// The driver's ghost model after consuming a whole event trace, in order.
pub open spec fn run(m: DriverModel, evs: Seq<Event>) -> DriverModel
    decreases evs.len(),
{
    if evs.len() == 0 {
        m
    } else {
        run(step(m, evs[0]), evs.subrange(1, evs.len() as int))
    }
}

/// The connection-lifecycle driver. It owns the registry of in-flight
/// exchanges (the per-peer states) and the verdicts, both keyed by the
/// transport-assigned peer identity.
pub struct Driver {
    role: Role,
    states: HashMap<u64, PeerState>,
    outcomes: HashMap<u64, RaceOutcome>,
}

impl Driver {
    /// The ghost model this driver realises.
    pub closed spec fn model(self) -> DriverModel {
        DriverModel { role: self.role, states: self.states@, outcomes: self.outcomes@ }
    }

    /// A fresh driver for the given role: no connections, no verdicts.
    pub fn new(role: Role) -> (d: Driver)
        ensures
            d.model() == (DriverModel {
                role,
                states: Map::<u64, PeerState>::empty(),
                outcomes: Map::<u64, RaceOutcome>::empty(),
            }),
    {
        Driver { role, states: HashMap::new(), outcomes: HashMap::new() }
    }

    /// Which side of the exchange this driver plays.
    pub fn role(&self) -> (r: Role)
        ensures
            r == self.model().role,
    {
        self.role
    }

    /// The connection state recorded for `peer`; peers never seen are idle.
    pub fn state_of(&self, peer: u64) -> (s: PeerState)
        ensures
            s == self.model().state_of(peer),
    {
        match self.states.get(&peer) {
            Some(s) => *s,
            None => PeerState::Idle,
        }
    }

    /// The verdict recorded for `peer`, if one has been decided.
    pub fn outcome_of(&self, peer: u64) -> (o: Option<RaceOutcome>)
        ensures
            o == self.model().outcome_of(peer),
    {
        match self.outcomes.get(&peer) {
            Some(o) => Some(*o),
            None => None,
        }
    }

    /// Consumes one transport event: advances the event's peer along the
    /// protocol state machine, records a verdict when the event decides
    /// one, and returns the action the caller must perform. The behaviour
    /// is exactly one [`step`] of the ghost model.
    pub fn handle_event(&mut self, ev: Event) -> (a: Action)
        ensures
            final(self).model() == step(old(self).model(), ev),
            a == step_action(old(self).model(), ev),
    {
        let peer: u64 = match ev {
            Event::ConnectionEstablished { peer } => peer,
            Event::InboundRequest { peer, .. } => peer,
            Event::ReplyWritten { peer, .. } => peer,
            Event::ResponseRead { peer, .. } => peer,
            Event::ConnectionClosed { peer } => peer,
        };
        let cur: PeerState = self.state_of(peer);
        let next: PeerState = crate::protocol::transition(self.role, cur, ev);
        self.states.insert(peer, next);
        match ev {
            Event::ConnectionEstablished { .. } => {
                if self.role == Role::Initiator && cur == PeerState::Idle {
                    Action::SendRequest { peer }
                } else {
                    Action::NoOp
                }
            },
            Event::InboundRequest { channel, .. } => Action::SendReply { channel },
            Event::ReplyWritten { ok, .. } => {
                if !ok && cur == PeerState::RequestReceived {
                    Action::FatalError { peer }
                } else {
                    Action::NoOp
                }
            },
            Event::ResponseRead { ok, .. } => {
                if self.role == Role::Initiator && cur == PeerState::RequestSent && ok
                    && !self.outcomes.contains_key(&peer) {
                    self.outcomes.insert(peer, RaceOutcome::ResponseObserved);
                    Action::Report { peer, outcome: RaceOutcome::ResponseObserved }
                } else {
                    Action::NoOp
                }
            },
            Event::ConnectionClosed { .. } => {
                if self.role == Role::Initiator && cur == PeerState::RequestSent
                    && !self.outcomes.contains_key(&peer) {
                    self.outcomes.insert(peer, RaceOutcome::ClosedBeforeResponse);
                    Action::Report { peer, outcome: RaceOutcome::ClosedBeforeResponse }
                } else {
                    Action::NoOp
                }
            },
        }
    }
}

/// A verdict is decided exactly once: once an outcome stands for a peer, no
/// single further event changes it, and none re-reports it.
pub proof fn lemma_outcome_immutable(m: DriverModel, ev: Event, p: u64)
    requires
        m.outcome_of(p) is Some,
    ensures
        step(m, ev).outcome_of(p) == m.outcome_of(p),
        step_action(m, ev) matches Action::Report { peer, .. } ==> peer != p,
{
}

/// A verdict is immutable under whole event traces: once an outcome stands
/// for a peer, it survives any sequence of further events unchanged.
pub proof fn lemma_outcome_immutable_run(m: DriverModel, evs: Seq<Event>, p: u64)
    requires
        m.outcome_of(p) is Some,
    ensures
        run(m, evs).outcome_of(p) == m.outcome_of(p),
    decreases evs.len(),
{
    if evs.len() > 0 {
        lemma_outcome_immutable(m, evs[0], p);
        lemma_outcome_immutable_run(step(m, evs[0]), evs.subrange(1, evs.len() as int), p);
    }
}

/// A terminal connection state is irreversible: no single further event
/// moves the peer out of it.
pub proof fn lemma_terminal_state_immutable(m: DriverModel, ev: Event, p: u64)
    requires
        crate::protocol::is_terminal(m.state_of(p)),
    ensures
        step(m, ev).state_of(p) == m.state_of(p),
{
}

/// A terminal connection state survives any sequence of further events:
/// whichever of `ResponseComplete` and `ConnectionClosed` is reached first
/// for a connection is final.
pub proof fn lemma_terminal_state_immutable_run(m: DriverModel, evs: Seq<Event>, p: u64)
    requires
        crate::protocol::is_terminal(m.state_of(p)),
    ensures
        run(m, evs).state_of(p) == m.state_of(p),
    decreases evs.len(),
{
    if evs.len() > 0 {
        lemma_terminal_state_immutable(m, evs[0], p);
        lemma_terminal_state_immutable_run(step(m, evs[0]), evs.subrange(1, evs.len() as int), p);
    }
}

/// Only the initiating side ever records an outcome: a responder's outcome
/// registry is left unchanged by every event trace.
pub proof fn lemma_responder_never_decides(m: DriverModel, evs: Seq<Event>)
    requires
        m.role == Role::Responder,
    ensures
        run(m, evs).outcomes == m.outcomes,
    decreases evs.len(),
{
    if evs.len() > 0 {
        lemma_responder_never_decides(step(m, evs[0]), evs.subrange(1, evs.len() as int));
    }
}

/// Response before closure: when the initiator has a request in flight with
/// no verdict yet and the full response body is read successfully, the
/// verdict is `ResponseObserved`, it is reported at that very step, and it
/// stays the verdict whatever events follow — closure included.
pub proof fn lemma_response_before_close(m: DriverModel, p: u64, evs: Seq<Event>)
    requires
        m.role == Role::Initiator,
        m.state_of(p) == PeerState::RequestSent,
        m.outcome_of(p) is None,
    ensures
        run(step(m, Event::ResponseRead { peer: p, ok: true }), evs).outcome_of(p) == Some(
            RaceOutcome::ResponseObserved,
        ),
        step_action(m, Event::ResponseRead { peer: p, ok: true }) == (Action::Report {
            peer: p,
            outcome: RaceOutcome::ResponseObserved,
        }),
{
    let m1 = step(m, Event::ResponseRead { peer: p, ok: true });
    assert(m1.outcome_of(p) == Some(RaceOutcome::ResponseObserved));
    lemma_outcome_immutable_run(m1, evs, p);
}

/// Closure before response: when the initiator has a request in flight with
/// no verdict yet and the transport closes the connection, the verdict is
/// `ClosedBeforeResponse`, it is reported at that very step, and it stays
/// the verdict whatever events follow.
pub proof fn lemma_close_before_response(m: DriverModel, p: u64, evs: Seq<Event>)
    requires
        m.role == Role::Initiator,
        m.state_of(p) == PeerState::RequestSent,
        m.outcome_of(p) is None,
    ensures
        run(step(m, Event::ConnectionClosed { peer: p }), evs).outcome_of(p) == Some(
            RaceOutcome::ClosedBeforeResponse,
        ),
        step_action(m, Event::ConnectionClosed { peer: p }) == (Action::Report {
            peer: p,
            outcome: RaceOutcome::ClosedBeforeResponse,
        }),
{
    let m1 = step(m, Event::ConnectionClosed { peer: p });
    assert(m1.outcome_of(p) == Some(RaceOutcome::ClosedBeforeResponse));
    lemma_outcome_immutable_run(m1, evs, p);
}

} // verus!
