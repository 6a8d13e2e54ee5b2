//! The per-connection session actor, as a state machine: greeting, then
//! established (the control actor decides whether it is authenticated),
//! then terminated.

use vstd::prelude::*;
use crate::protocol::{ClientPacket, ServerPacket, ServerVoice, TextMessage, PROTOCOL_VERSION};

verus! {

/// Phase of a session actor.
#[derive(Clone, Copy, Debug, PartialEq, Eq)]
pub enum SessionPhase {
    /// The server version was sent; waiting for the client's.
    Greeting,
    /// Declared to the control actor; routing packets.
    Established,
    /// Finished; every further event is ignored.
    Terminated,
}

/// State of a session actor. Times are milliseconds on a monotonic clock.
#[derive(Clone, Copy, Debug, PartialEq, Eq)]
pub struct SessionState {
    pub session_id: u32,
    pub phase: SessionPhase,
    /// When the client last pinged (or when the session was established).
    pub last_ping_ms: u64,
    /// Longest allowed silence between pings.
    pub timeout_ms: u64,
}

/// Something that happened to a session actor.
#[derive(Debug)]
pub enum SessionEvent {
    /// A packet read from the client, at time `now`.
    Inbound(ServerPacket, u64),
    /// Reading from the client failed, or the client closed the connection.
    ReadFailed,
    /// Writing to the client failed.
    WriteFailed,
    /// A client-bound packet arrived on the session's queue.
    Outbound(ClientPacket),
    /// The session's queue is closed: every sender is gone.
    OutboundClosed,
    /// The control queue refused the session's declaration.
    ControlClosed,
    /// The keepalive check fired at time `now`.
    Tick(u64),
}

/// What the runtime must do next for a session.
#[derive(Debug)]
pub enum SessionAction {
    /// Nothing.
    Continue,
    /// Write this packet to the client.
    Reply(ClientPacket),
    /// Send `AddSession` with this client version to the control actor.
    Declare(u32),
    /// Send this voice packet, from this session, to the routing actor.
    ForwardVoice(ServerVoice),
    /// Send this text message, from this session, to the routing actor.
    ForwardText(TextMessage),
    /// Send this control packet, from this session, to the control actor.
    ForwardControl(ServerPacket),
    /// Stop; when `remove` holds, first send `RemoveSession` to the control
    /// actor.
    Stop { remove: bool },
}

/// Whether the client has been silent for longer than the timeout at `now`.
pub open spec fn timed_out(s: SessionState, now: u64) -> bool {
    now > s.last_ping_ms && now - s.last_ping_ms > s.timeout_ms
}

/// The session's transition on one event: next state and action.
pub open spec fn session_next(s: SessionState, e: SessionEvent) -> (SessionState, SessionAction) {
    let ended = SessionState { phase: SessionPhase::Terminated, ..s };
    match s.phase {
        SessionPhase::Terminated => (s, SessionAction::Continue),
        SessionPhase::Greeting => match e {
            SessionEvent::Inbound(ServerPacket::Version(v), now) => (
                SessionState { phase: SessionPhase::Established, last_ping_ms: now, ..s },
                SessionAction::Declare(v),
            ),
            SessionEvent::Outbound(p) => (s, SessionAction::Reply(p)),
            SessionEvent::Tick(_) => (s, SessionAction::Continue),
            _ => (ended, SessionAction::Stop { remove: false }),
        },
        SessionPhase::Established => match e {
            SessionEvent::Inbound(p, now) => match p {
                ServerPacket::Tunnel(v) => (s, SessionAction::ForwardVoice(v)),
                ServerPacket::Text(t) => (s, SessionAction::ForwardText(t)),
                ServerPacket::Ping(ts) => (
                    SessionState { last_ping_ms: now, ..s },
                    SessionAction::Reply(ClientPacket::Ping(ts)),
                ),
                _ => (s, SessionAction::ForwardControl(p)),
            },
            SessionEvent::ReadFailed => (ended, SessionAction::Stop { remove: true }),
            SessionEvent::WriteFailed => (ended, SessionAction::Stop { remove: true }),
            SessionEvent::Outbound(p) => (s, SessionAction::Reply(p)),
            SessionEvent::OutboundClosed => (ended, SessionAction::Stop { remove: false }),
            SessionEvent::ControlClosed => (ended, SessionAction::Stop { remove: false }),
            SessionEvent::Tick(now) => {
                if timed_out(s, now) {
                    (ended, SessionAction::Stop { remove: true })
                } else {
                    (s, SessionAction::Continue)
                }
            },
        },
    }
}

/// A session asks for its removal from the control actor only once it has
/// declared itself: a failed greeting ends silently.
pub proof fn lemma_removal_only_after_declaration(s: SessionState, e: SessionEvent)
    requires
        s.phase != SessionPhase::Established,
    ensures
        !(session_next(s, e).1 matches SessionAction::Stop { remove: true }),
{
}

/// A silent client is evicted: once the timeout has elapsed since the last
/// ping, the next keepalive check stops the session and removes it.
pub proof fn lemma_timeout_evicts(s: SessionState, now: u64)
    requires
        s.phase == SessionPhase::Established,
        now > s.last_ping_ms + s.timeout_ms,
    ensures
        session_next(s, SessionEvent::Tick(now)).0.phase == SessionPhase::Terminated,
        session_next(s, SessionEvent::Tick(now)).1 matches SessionAction::Stop { remove: true },
{
}

impl SessionState {
    /// A session in greeting, with the given keepalive timeout.
    pub fn new(session_id: u32, timeout_ms: u64) -> (s: SessionState)
        ensures
            s == (SessionState {
                session_id,
                phase: SessionPhase::Greeting,
                last_ping_ms: 0,
                timeout_ms,
            }),
    {
        SessionState { session_id, phase: SessionPhase::Greeting, last_ping_ms: 0, timeout_ms }
    }

    /// The packet that opens a session: the server's protocol version.
    pub fn greeting(&self) -> (p: ClientPacket)
        ensures
            p == ClientPacket::Version(PROTOCOL_VERSION),
    {
        ClientPacket::Version(PROTOCOL_VERSION)
    }

    /// Handles one event: the next state and the action to perform.
    pub fn step(self, e: SessionEvent) -> (r: (SessionState, SessionAction))
        ensures
            r == session_next(self, e),
    {
        let ended = SessionState { phase: SessionPhase::Terminated, ..self };
        match self.phase {
            SessionPhase::Terminated => (self, SessionAction::Continue),
            SessionPhase::Greeting => match e {
                SessionEvent::Inbound(ServerPacket::Version(v), now) => (
                    SessionState { phase: SessionPhase::Established, last_ping_ms: now, ..self },
                    SessionAction::Declare(v),
                ),
                SessionEvent::Outbound(p) => (self, SessionAction::Reply(p)),
                SessionEvent::Tick(_) => (self, SessionAction::Continue),
                _ => (ended, SessionAction::Stop { remove: false }),
            },
            SessionPhase::Established => match e {
                SessionEvent::Inbound(p, now) => match p {
                    ServerPacket::Tunnel(v) => (self, SessionAction::ForwardVoice(v)),
                    ServerPacket::Text(t) => (self, SessionAction::ForwardText(t)),
                    ServerPacket::Ping(ts) => (
                        SessionState { last_ping_ms: now, ..self },
                        SessionAction::Reply(ClientPacket::Ping(ts)),
                    ),
                    _ => (self, SessionAction::ForwardControl(p)),
                },
                SessionEvent::ReadFailed => (ended, SessionAction::Stop { remove: true }),
                SessionEvent::WriteFailed => (ended, SessionAction::Stop { remove: true }),
                SessionEvent::Outbound(p) => (self, SessionAction::Reply(p)),
                SessionEvent::OutboundClosed => (ended, SessionAction::Stop { remove: false }),
                SessionEvent::ControlClosed => (ended, SessionAction::Stop { remove: false }),
                SessionEvent::Tick(now) => {
                    if now > self.last_ping_ms && now - self.last_ping_ms > self.timeout_ms {
                        (ended, SessionAction::Stop { remove: true })
                    } else {
                        (self, SessionAction::Continue)
                    }
                },
            },
        }
    }
}

} // verus!
