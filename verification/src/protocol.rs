//! Request/response protocol state machine: the per-connection lifecycle of
//! one exchange, shared by the initiating and the responding role.
//!
//! Each peer connection carries at most one exchange. The initiating side
//! moves `Idle -> RequestSent -> (ResponseComplete | ConnectionClosed)`; the
//! receiving side moves `Idle -> RequestReceived -> ResponseSent`. The two
//! states `ResponseComplete` and `ConnectionClosed` are terminal: whichever
//! is reached first for a connection is final, and no event undoes it.

use vstd::prelude::*;

verus! {

/// Which side of the exchange this process plays.
#[derive(Clone, Copy, PartialEq, Eq, Structural, Debug)]
pub enum Role {
    /// The side that issues the request and computes the race verdict.
    Initiator,
    /// The side that answers the request; it never computes a verdict.
    Responder,
}

/// The state of one peer connection's exchange.
#[derive(Clone, Copy, PartialEq, Eq, Structural, Debug)]
pub enum PeerState {
    /// No exchange has started on this connection.
    Idle,
    /// Initiator: the empty request was dispatched; the response is awaited.
    RequestSent,
    /// Receiving side: the empty request arrived; the reply is being written.
    RequestReceived,
    /// Receiving side: the full response body was written out.
    ResponseSent,
    /// Initiator: the full response body was read before any closure signal.
    /// Terminal.
    ResponseComplete,
    /// The transport closed the connection. Terminal.
    ConnectionClosed,
}

/// The race verdict, decided once per connection by the initiator.
#[derive(Clone, Copy, PartialEq, Eq, Structural, Debug)]
pub enum RaceOutcome {
    /// The full response was read before any closure signal for the
    /// connection.
    ResponseObserved,
    /// A connection-closed signal arrived before the response stream
    /// finished.
    ClosedBeforeResponse,
}

/// One transport lifecycle or exchange event, as the driver consumes it.
#[derive(Clone, Copy, PartialEq, Eq, Structural, Debug)]
pub enum Event {
    /// A connection to `peer` was established.
    ConnectionEstablished { peer: u64 },
    /// An empty inbound request arrived from `peer`; `channel` identifies
    /// where the reply must be written.
    InboundRequest { peer: u64, channel: u64 },
    /// The codec finished writing a reply body towards `peer`; `ok` says
    /// whether every chunk was flushed.
    ReplyWritten { peer: u64, ok: bool },
    /// The codec finished the correlated read of a response body from
    /// `peer`; `ok` says whether all chunks arrived before the stream ended.
    ResponseRead { peer: u64, ok: bool },
    /// The transport closed the connection to `peer`.
    ConnectionClosed { peer: u64 },
}

/// What the driver asks its caller to do after consuming an event.
#[derive(Clone, Copy, PartialEq, Eq, Structural, Debug)]
pub enum Action {
    /// Nothing to do.
    NoOp,
    /// Dispatch the empty request to `peer`.
    SendRequest { peer: u64 },
    /// Write the full response body to the reply channel.
    SendReply { channel: u64 },
    /// Report the verdict just decided for `peer`.
    Report { peer: u64, outcome: RaceOutcome },
    /// A reply-side write failure: fatal for the run, no recovery path.
    FatalError { peer: u64 },
}

/// Whether a connection state is terminal.
pub open spec fn is_terminal(s: PeerState) -> bool {
    s == PeerState::ResponseComplete || s == PeerState::ConnectionClosed
}

/// The per-connection transition relation, for an event that concerns this
/// connection's peer. Terminal states absorb every further event.
pub open spec fn next_state(role: Role, s: PeerState, ev: Event) -> PeerState {
    if is_terminal(s) {
        s
    } else {
        match ev {
            Event::ConnectionEstablished { .. } => if role == Role::Initiator && s
                == PeerState::Idle {
                PeerState::RequestSent
            } else {
                s
            },
            Event::InboundRequest { .. } => if s == PeerState::Idle {
                PeerState::RequestReceived
            } else {
                s
            },
            Event::ReplyWritten { ok, .. } => if s == PeerState::RequestReceived && ok {
                PeerState::ResponseSent
            } else {
                s
            },
            Event::ResponseRead { ok, .. } => if role == Role::Initiator && s
                == PeerState::RequestSent && ok {
                PeerState::ResponseComplete
            } else {
                s
            },
            Event::ConnectionClosed { .. } => PeerState::ConnectionClosed,
        }
    }
}

/// Runs one step of the per-connection state machine.
pub fn transition(role: Role, s: PeerState, ev: Event) -> (t: PeerState)
    ensures
        t == next_state(role, s, ev),
{
    if s == PeerState::ResponseComplete || s == PeerState::ConnectionClosed {
        return s;
    }
    match ev {
        Event::ConnectionEstablished { .. } => if role == Role::Initiator && s
            == PeerState::Idle {
            PeerState::RequestSent
        } else {
            s
        },
        Event::InboundRequest { .. } => if s == PeerState::Idle {
            PeerState::RequestReceived
        } else {
            s
        },
        Event::ReplyWritten { ok, .. } => if s == PeerState::RequestReceived && ok {
            PeerState::ResponseSent
        } else {
            s
        },
        Event::ResponseRead { ok, .. } => if role == Role::Initiator && s
            == PeerState::RequestSent && ok {
            PeerState::ResponseComplete
        } else {
            s
        },
        Event::ConnectionClosed { .. } => PeerState::ConnectionClosed,
    }
}

/// Terminal states are final and irreversible: no event moves a connection
/// out of `ResponseComplete` or `ConnectionClosed`.
pub proof fn lemma_terminal_absorbs(role: Role, s: PeerState, ev: Event)
    requires
        is_terminal(s),
    ensures
        next_state(role, s, ev) == s,
{
}

} // verus!
