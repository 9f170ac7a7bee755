//! The gateway: the life of one inbound connection, from the handshake that
//! authenticates it to its end.
//!
//! A connection starts unauthenticated, becomes bound to a user by one valid
//! handshake and ends terminated; it never goes back. The gateway reads no
//! socket: its driver reports what arrived and carries out what is decided.

use vstd::prelude::*;
use tokio::sync::mpsc::{Receiver, Sender};
use crate::connection::{after_register, after_unregister, Connection, ConnectionRegistry};
use crate::recency::after_read;
use crate::session::{Session, SessionRegistry};

verus! {

/// `tokio::sync::mpsc::Receiver`, the receiving side of a bounded channel. The
/// library hands it to the driver and never looks inside.
#[verifier::external_type_specification]
#[verifier::external_body]
#[verifier::reject_recursive_types(T)]
pub struct ExReceiver<T>(tokio::sync::mpsc::Receiver<T>);

/// The number of envelopes an outbound channel holds before it counts as full.
pub const OUTBOUND_CAPACITY: usize = 256;

/// The largest outbound channel the library opens.
pub const MAX_OUTBOUND_CAPACITY: usize = 1048576;

/// `tokio::sync::mpsc::channel`: the two ends of a new bounded channel that
/// holds at most `buffer` texts.
#[verifier::external_body]
pub(crate) fn open_channel(buffer: usize) -> (ends: (Sender<String>, Receiver<String>))
    requires
        0 < buffer <= MAX_OUTBOUND_CAPACITY,
{
    tokio::sync::mpsc::channel(buffer)
}

/// Where a connection stands.
#[derive(Clone, Copy, Debug, PartialEq, Eq, Structural)]
pub enum GatewayState {
    /// No valid handshake yet.
    Unauthenticated,
    /// Registered as connection number `connection` of `user`.
    Bound { user: u64, connection: u64 },
    /// Over.
    Terminated,
}

/// The first inbound frame of a connection, as its driver read it.
#[derive(Clone, Copy, Debug, PartialEq, Eq, Structural)]
pub enum Handshake {
    /// An authentication envelope with this session.
    Auth(Session),
    /// A frame of another kind than text.
    WrongKind,
    /// A text that is no authentication envelope.
    Malformed,
    /// The socket failed.
    SocketError,
    /// The socket closed before any frame.
    NoFrame,
}

/// Why a handshake was refused.
#[derive(Clone, Copy, Debug, PartialEq, Eq, Structural)]
pub enum Refusal {
    /// The first frame was not an authentication envelope.
    ProtocolViolation,
    /// The session is unknown: never bound, or evicted.
    Unauthenticated,
    /// No connection number is left to give.
    Exhausted,
    /// The connection already had its handshake.
    AlreadyDecided,
}

/// The result of a handshake.
pub enum HandshakeOutcome {
    /// The connection is bound. `inbox` is the receiving end of its outbound
    /// channel, for the driver to pump to the wire; `superseded` is the
    /// connection the user had before, for the driver to close.
    Bound { inbox: Receiver<String>, superseded: Option<Connection> },
    /// The connection is refused and nothing was registered.
    Refused(Refusal),
}

/// What the driver of a bound connection reports.
pub enum PumpEvent {
    /// A text arrived on the outbound channel.
    Outbound(String),
    /// Writing to the wire failed.
    WireError,
    /// The peer closed the wire.
    WireClosed,
    /// The outbound channel was closed.
    ChannelClosed,
}

/// What the driver of a connection does next.
pub enum PumpAction {
    /// Write this text to the wire.
    Forward(String),
    /// Stop pumping and close the wire.
    Close,
}

/// How far a connection has come: it never goes back.
pub open spec fn progress(state: GatewayState) -> nat {
    match state {
        GatewayState::Unauthenticated => 0,
        GatewayState::Bound { .. } => 1,
        GatewayState::Terminated => 2,
    }
}

/// The session a handshake frame carries, if it is an authentication envelope.
pub open spec fn offered_session(frame: Handshake) -> Option<Session> {
    match frame {
        Handshake::Auth(session) => Some(session),
        _ => None,
    }
}

/// The state machine of one connection.
pub struct Gateway {
    state: GatewayState,
}

impl Gateway {
    /// Where the connection stands.
    pub closed spec fn state(&self) -> GatewayState {
        self.state
    }

    /// A connection before its handshake.
    pub fn new() -> (gateway: Gateway)
        ensures
            gateway.state() == GatewayState::Unauthenticated,
    {
        Gateway { state: GatewayState::Unauthenticated }
    }

    /// Where the connection stands.
    pub fn current(&self) -> (state: GatewayState)
        ensures
            state == self.state(),
    {
        self.state
    }

    /// Decides the handshake of an unauthenticated connection.
    ///
    /// Only an authentication envelope whose session the registry knows binds
    /// the connection: a fresh outbound channel is opened and registered as the
    /// user's live connection, superseding an earlier one. Every other first
    /// frame, an unknown session, or a registry without a number left
    /// terminates the connection with nothing registered. A connection that
    /// already had its handshake is refused and stays as it is.
    pub fn handshake(
        &mut self,
        frame: Handshake,
        sessions: &mut SessionRegistry,
        connections: &mut ConnectionRegistry,
    ) -> (outcome: HandshakeOutcome)
        requires
            old(sessions).wf(),
            old(connections).wf(),
        ensures
            final(sessions).wf(),
            final(connections).wf(),
            progress(old(self).state()) <= progress(final(self).state()),
            final(sessions).capacity() == old(sessions).capacity(),
            forall|token: u128| final(sessions).user_of(token) == old(sessions).user_of(token),
            final(sessions).entries() == (match offered_session(frame) {
                Some(session) if old(self).state() == GatewayState::Unauthenticated => after_read(
                    old(sessions).entries(),
                    session.session_id,
                ),
                _ => old(sessions).entries(),
            }),
            match Self::verdict(
                old(self).state(),
                frame,
                *old(sessions),
                old(connections).issued(),
            ) {
                Ok(user) => {
                    &&& outcome matches HandshakeOutcome::Bound { inbox, superseded }
                    &&& final(self).state() == (GatewayState::Bound {
                        user,
                        connection: old(connections).issued(),
                    })
                    &&& final(connections).issued() == old(connections).issued() + 1
                    &&& final(connections).is_live(user, old(connections).issued())
                    &&& final(connections).connections() == after_register(
                        old(connections).connections(),
                        user,
                        final(connections).connections()[user],
                    )
                    &&& superseded == (if old(connections).connections().contains_key(user) {
                        Some(old(connections).connections()[user])
                    } else {
                        None
                    })
                },
                Err(refusal) => {
                    &&& outcome matches HandshakeOutcome::Refused(reason)
                    &&& reason == refusal
                    &&& final(self).state() == (if refusal == Refusal::AlreadyDecided {
                        old(self).state()
                    } else {
                        GatewayState::Terminated
                    })
                    &&& final(connections).connections() == old(connections).connections()
                    &&& final(connections).issued() == old(connections).issued()
                },
            },
    {
        match self.state {
            GatewayState::Unauthenticated => {},
            _ => {
                return HandshakeOutcome::Refused(Refusal::AlreadyDecided);
            },
        }
        let session = match frame {
            Handshake::Auth(session) => session,
            _ => {
                self.state = GatewayState::Terminated;
                return HandshakeOutcome::Refused(Refusal::ProtocolViolation);
            },
        };
        let user = match sessions.authenticate(session.session_id) {
            Some(user) => user,
            None => {
                self.state = GatewayState::Terminated;
                return HandshakeOutcome::Refused(Refusal::Unauthenticated);
            },
        };
        if !connections.has_room() {
            self.state = GatewayState::Terminated;
            return HandshakeOutcome::Refused(Refusal::Exhausted);
        }
        let (outbound, inbox) = open_channel(OUTBOUND_CAPACITY);
        let registration = connections.register(user, outbound);
        self.state = GatewayState::Bound { user, connection: registration.id };
        HandshakeOutcome::Bound { inbox, superseded: registration.superseded }
    }

    /// Whom a handshake binds the connection to, or why it is refused.
    pub open spec fn verdict(
        state: GatewayState,
        frame: Handshake,
        sessions: SessionRegistry,
        issued: u64,
    ) -> Result<u64, Refusal> {
        if state != GatewayState::Unauthenticated {
            Err(Refusal::AlreadyDecided)
        } else {
            match frame {
                Handshake::Auth(session) => match sessions.user_of(session.session_id) {
                    Some(user) => if issued < u64::MAX {
                        Ok(user)
                    } else {
                        Err(Refusal::Exhausted)
                    },
                    None => Err(Refusal::Unauthenticated),
                },
                _ => Err(Refusal::ProtocolViolation),
            }
        }
    }

    /// Decides what a bound connection does with what its driver reports.
    ///
    /// A text from the outbound channel is forwarded to the wire, unchanged.
    /// A wire error, a closed wire or a closed channel ends the connection: it
    /// is unregistered, which removes it only if it still is the user's live
    /// connection. A connection that is not bound forwards nothing and ends.
    pub fn pump(&mut self, event: PumpEvent, connections: &mut ConnectionRegistry) -> (action:
        PumpAction)
        requires
            old(connections).wf(),
        ensures
            final(connections).wf(),
            final(connections).issued() == old(connections).issued(),
            progress(old(self).state()) <= progress(final(self).state()),
            match (old(self).state(), event) {
                (GatewayState::Bound { .. }, PumpEvent::Outbound(text)) => {
                    &&& action == PumpAction::Forward(text)
                    &&& final(self).state() == old(self).state()
                    &&& final(connections).connections() == old(connections).connections()
                },
                (GatewayState::Bound { user, connection }, _) => {
                    &&& action is Close
                    &&& final(self).state() == GatewayState::Terminated
                    &&& final(connections).connections() == after_unregister(
                        old(connections).connections(),
                        user,
                        connection,
                    )
                },
                _ => {
                    &&& action is Close
                    &&& final(self).state() == GatewayState::Terminated
                    &&& final(connections).connections() == old(connections).connections()
                },
            },
    {
        match self.state {
            GatewayState::Bound { user, connection } => match event {
                PumpEvent::Outbound(text) => PumpAction::Forward(text),
                _ => {
                    let _ = connections.unregister(user, connection);
                    self.state = GatewayState::Terminated;
                    PumpAction::Close
                },
            },
            _ => {
                self.state = GatewayState::Terminated;
                PumpAction::Close
            },
        }
    }
}

} // verus!
