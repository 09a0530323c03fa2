//! The lifecycle of one connection, as a state machine. The caller owns the
//! socket and the delivery queue: it waits on whichever of the two is ready
//! first, hands the event to [`ConnectionHandler::on_event`], and performs the
//! action that comes back. On every way out it calls
//! [`ConnectionHandler::close`], which gives up the registry entry.
use tokio::sync::mpsc::UnboundedSender;
use vstd::prelude::*;

use crate::presence::{current_connection, PresenceRegistry};
use crate::router::{
    error_frame_text, render_error, spec_parse_inbound, store_inbound, stored, RouteError,
    Routed,
};
use crate::store::{ConversationStore, StoreError};

verus! {

/// Where a connection is in its life.
#[derive(Clone, Copy, Debug, PartialEq, Eq, Structural)]
pub enum Phase {
    /// The handshake is not complete; nothing is registered.
    Connecting,
    /// Registered, and serving frames and deliveries.
    Active,
    /// The peer closed or the transport failed; the loop is ending.
    Closing,
    /// The registry entry is given up. Final.
    Closed,
}

/// A frame read from the peer.
pub enum InboundFrame {
    Text(String),
    Close,
    /// Binary, ping, pong and continuation frames, which this protocol ignores.
    Other,
}

/// What woke the connection's loop.
pub enum ConnectionEvent {
    Inbound(InboundFrame),
    /// Reading from the peer failed.
    ReadFailed,
    /// The peer's stream of frames ended.
    InboundEnded,
    /// A payload was drained from this connection's delivery queue.
    Outbound(String),
    /// Every sending half of the delivery queue is gone: the registry has
    /// moved on to a newer connection of the same user.
    OutboundEnded,
    /// Writing to the peer failed.
    WriteFailed,
}

/// What the loop does next.
pub enum ConnectionAction {
    /// Write this text frame to the peer, then wait again.
    Write(String),
    /// Push this stored message's frame to its receiver and its sender with
    /// [`crate::router::deliver`], then wait again.
    Deliver(Routed),
    /// Wait for the next event.
    Continue,
    /// Leave the loop.
    Stop,
}

/// Whether an event ends the connection.
pub open spec fn ends_connection(e: ConnectionEvent) -> bool {
    match e {
        ConnectionEvent::Inbound(InboundFrame::Close) => true,
        ConnectionEvent::ReadFailed => true,
        ConnectionEvent::InboundEnded => true,
        ConnectionEvent::WriteFailed => true,
        _ => false,
    }
}

pub struct ConnectionHandler {
    user: u128,
    connection: u64,
    phase: Phase,
}

impl ConnectionHandler {
    pub closed spec fn spec_user(&self) -> u128 {
        self.user
    }

    pub closed spec fn spec_connection(&self) -> u64 {
        self.connection
    }

    pub closed spec fn spec_phase(&self) -> Phase {
        self.phase
    }

    /// A connection of `user`, numbered `connection`, whose handshake is
    /// under way.
    pub fn new(user: u128, connection: u64) -> (r: ConnectionHandler)
        ensures
            r.spec_user() == user,
            r.spec_connection() == connection,
            r.spec_phase() == Phase::Connecting,
    {
        ConnectionHandler { user: user, connection: connection, phase: Phase::Connecting }
    }

    pub fn user(&self) -> (r: u128)
        ensures
            r == self.spec_user(),
    {
        self.user
    }

    pub fn connection(&self) -> (r: u64)
        ensures
            r == self.spec_connection(),
    {
        self.connection
    }

    pub fn phase(&self) -> (r: Phase)
        ensures
            r == self.spec_phase(),
    {
        self.phase
    }

    /// Completes the handshake: registers `handle` as the user's delivery
    /// queue and becomes active. Only a connecting handler does so; the
    /// result says whether it did.
    pub fn activate(&mut self, registry: &mut PresenceRegistry, handle: UnboundedSender<String>) -> (r:
        bool)
        ensures
            r == (old(self).spec_phase() == Phase::Connecting),
            final(self).spec_user() == old(self).spec_user(),
            final(self).spec_connection() == old(self).spec_connection(),
            r ==> final(self).spec_phase() == Phase::Active && final(registry)@ == old(
                registry,
            )@.insert(old(self).spec_user(), old(self).spec_connection()),
            !r ==> *final(self) == *old(self) && final(registry)@ == old(registry)@,
    {
        if self.phase != Phase::Connecting {
            return false;
        }
        registry.register(self.user, self.connection, handle);
        self.phase = Phase::Active;
        true
    }

    /// Handles one event of an active connection. A text frame's message is
    /// stored and the action delivers it; if that fails, the action writes
    /// one error frame back to this peer.
    /// A payload from the delivery queue is written to the peer. A close
    /// frame, a failed read or write, or the end of the peer's stream ends
    /// the loop. Anything else waits for the next event.
    pub fn on_event(
        &mut self,
        event: ConnectionEvent,
        store: &mut ConversationStore,
    ) -> (r: ConnectionAction)
        requires
            old(store).wf(),
        ensures
            final(store).wf(),
            final(store).names() == old(store).names(),
            final(self).spec_user() == old(self).spec_user(),
            final(self).spec_connection() == old(self).spec_connection(),
            old(self).spec_phase() != Phase::Active ==> r is Stop && *final(self) == *old(self)
                && *final(store) == *old(store),
            old(self).spec_phase() == Phase::Active ==> {
                &&& ends_connection(event) ==> r is Stop && final(self).spec_phase()
                    == Phase::Closing && *final(store) == *old(store)
                &&& !ends_connection(event) ==> final(self).spec_phase() == Phase::Active
                &&& match event {
                    ConnectionEvent::Inbound(InboundFrame::Text(t)) => match spec_parse_inbound(
                        t@,
                    ) {
                        Err(e) => *final(store) == *old(store) && match r {
                            ConnectionAction::Write(s) => s@ == error_frame_text(
                                RouteError::Frame(e).spec_message(),
                            ),
                            _ => false,
                        },
                        Ok((receiver, content)) => (old(store).messages().len() == 0 && (
                        old(store).has_pair(old(self).spec_user(), receiver)
                            || old(store).conversations().len() == 0) ==> r is Deliver)
                            && match r {
                            ConnectionAction::Deliver(rt) => rt.receiver_id == receiver && stored(
                                *old(store),
                                *final(store),
                                old(self).spec_user(),
                                receiver,
                                content,
                                rt.message@,
                                rt.frame@,
                            ),
                            ConnectionAction::Write(s) => s@ == error_frame_text(
                                RouteError::Store(StoreError::DuplicateId).spec_message(),
                            ) && final(store).messages() == old(store).messages(),
                            _ => false,
                        },
                    },
                    ConnectionEvent::Outbound(p) => *final(store) == *old(store) && match r {
                        ConnectionAction::Write(s) => s@ == p@,
                        _ => false,
                    },
                    ConnectionEvent::Inbound(InboundFrame::Other) => r is Continue && *final(store)
                        == *old(store),
                    ConnectionEvent::OutboundEnded => r is Continue && *final(store) == *old(store),
                    _ => true,
                }
            },
    {
        if self.phase != Phase::Active {
            return ConnectionAction::Stop;
        }
        match event {
            ConnectionEvent::Inbound(InboundFrame::Text(text)) => {
                match store_inbound(store, self.user, text.as_str()) {
                    Ok(routed) => ConnectionAction::Deliver(routed),
                    Err(e) => ConnectionAction::Write(render_error(&e)),
                }
            },
            ConnectionEvent::Inbound(InboundFrame::Other) => ConnectionAction::Continue,
            ConnectionEvent::Outbound(payload) => ConnectionAction::Write(payload),
            ConnectionEvent::OutboundEnded => ConnectionAction::Continue,
            ConnectionEvent::Inbound(InboundFrame::Close) => {
                self.phase = Phase::Closing;
                ConnectionAction::Stop
            },
            ConnectionEvent::ReadFailed => {
                self.phase = Phase::Closing;
                ConnectionAction::Stop
            },
            ConnectionEvent::InboundEnded => {
                self.phase = Phase::Closing;
                ConnectionAction::Stop
            },
            ConnectionEvent::WriteFailed => {
                self.phase = Phase::Closing;
                ConnectionAction::Stop
            },
        }
    }

    /// Ends the connection from any phase. A connection that registered
    /// gives up the user's entry, unless a newer connection of the same user
    /// has taken it over since.
    pub fn close(&mut self, registry: &mut PresenceRegistry)
        ensures
            final(self).spec_phase() == Phase::Closed,
            final(self).spec_user() == old(self).spec_user(),
            final(self).spec_connection() == old(self).spec_connection(),
            final(registry)@ == if (old(self).spec_phase() == Phase::Active || old(self).spec_phase()
                == Phase::Closing) && current_connection(old(registry)@, old(self).spec_user())
                == Some(old(self).spec_connection()) {
                old(registry)@.remove(old(self).spec_user())
            } else {
                old(registry)@
            },
    {
        if self.phase == Phase::Active || self.phase == Phase::Closing {
            registry.release(self.user, self.connection);
        }
        self.phase = Phase::Closed;
    }
}

} // verus!
