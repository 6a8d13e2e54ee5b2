//! The client connection actor, as a state machine: version handshake,
//! authentication, then keepalive and dispatch between the server and the
//! audio codec.

use vstd::prelude::*;
use crate::protocol::{ClientPacket, ClientVoice, ServerPacket, ServerVoice, PROTOCOL_VERSION};

verus! {

/// Messages from the codec or the user interface to the server.
#[derive(Debug)]
pub enum ConnectionMessage {
    /// A voice packet, sent tunnelled through the control channel.
    Voice(ServerVoice),
    /// A control packet, sent as it is.
    Control(ServerPacket),
}

/// Why the handshake failed.
#[derive(Clone, Copy, Debug, PartialEq, Eq)]
pub enum HandshakeError {
    /// The server announced another protocol version.
    VersionMismatch(u32),
    /// The server sent something else than its version.
    UnexpectedPacket,
    /// The server closed the connection.
    Closed,
}

/// Phase of the connection actor.
#[derive(Clone, Copy, Debug, PartialEq, Eq)]
pub enum ConnectionPhase {
    /// Our version was sent; waiting for the server's.
    AwaitVersion,
    /// Authenticated; dispatching.
    Ready,
    /// Finished; every further event is ignored.
    Closed,
}

/// Something that happened to the connection actor.
#[derive(Debug)]
pub enum ConnectionEvent {
    /// A packet read from the server.
    Server(ClientPacket),
    /// Reading from the server failed, or the server closed the connection.
    ServerClosed,
    /// The ping timer fired; the argument is the current Unix time in seconds.
    PingTick(u64),
    /// A message from the codec or the user interface.
    Outbound(ConnectionMessage),
    /// Every sender of outbound messages is gone.
    OutboundClosed,
    /// Writing to the server failed.
    WriteFailed,
}

/// What the connection actor's runtime must do next.
#[derive(Debug)]
pub enum ConnectionAction {
    /// Nothing.
    Continue,
    /// Write this packet to the server.
    Send(ServerPacket),
    /// Hand this voice packet to the audio codec (dropped if it is gone).
    ToCodec(ClientVoice),
    /// Hand this control packet to the user interface.
    ToUi(ClientPacket),
    /// The server answered a ping with this timestamp.
    Pong(u64),
    /// Stop the connection.
    Stop,
    /// Stop the connection: the handshake failed.
    Fail(HandshakeError),
}

/// Interval between client pings, half the session timeout.
pub open spec fn ping_period(timeout_ms: u64) -> u64 {
    timeout_ms / 2
}

/// Interval between client pings for a session timeout of `timeout_ms`.
pub fn ping_period_ms(timeout_ms: u64) -> (r: u64)
    ensures
        r == ping_period(timeout_ms),
{
    timeout_ms / 2
}

/// The packet that opens the connection: our protocol version.
pub fn hello() -> (p: ServerPacket)
    ensures
        p == ServerPacket::Version(PROTOCOL_VERSION),
{
    ServerPacket::Version(PROTOCOL_VERSION)
}

/// The connection's transition on one event.
pub open spec fn connection_next(ph: ConnectionPhase, e: ConnectionEvent) -> (ConnectionPhase, ConnectionAction) {
    match ph {
        ConnectionPhase::Closed => (ph, ConnectionAction::Continue),
        ConnectionPhase::AwaitVersion => match e {
            ConnectionEvent::Server(ClientPacket::Version(v)) => {
                if v == PROTOCOL_VERSION {
                    (ConnectionPhase::Ready, ConnectionAction::Send(ServerPacket::Authenticate))
                } else {
                    (ConnectionPhase::Closed, ConnectionAction::Fail(HandshakeError::VersionMismatch(v)))
                }
            },
            ConnectionEvent::Server(_) => (
                ConnectionPhase::Closed,
                ConnectionAction::Fail(HandshakeError::UnexpectedPacket),
            ),
            ConnectionEvent::ServerClosed => (
                ConnectionPhase::Closed,
                ConnectionAction::Fail(HandshakeError::Closed),
            ),
            ConnectionEvent::WriteFailed => (ConnectionPhase::Closed, ConnectionAction::Stop),
            ConnectionEvent::OutboundClosed => (ConnectionPhase::Closed, ConnectionAction::Stop),
            _ => (ph, ConnectionAction::Continue),
        },
        ConnectionPhase::Ready => match e {
            ConnectionEvent::Server(p) => match p {
                ClientPacket::Tunnel(v) => (ph, ConnectionAction::ToCodec(v)),
                ClientPacket::Ping(ts) => (ph, ConnectionAction::Pong(ts)),
                _ => (ph, ConnectionAction::ToUi(p)),
            },
            ConnectionEvent::PingTick(now) => (ph, ConnectionAction::Send(ServerPacket::Ping(now))),
            ConnectionEvent::Outbound(ConnectionMessage::Voice(v)) => (
                ph,
                ConnectionAction::Send(ServerPacket::Tunnel(v)),
            ),
            ConnectionEvent::Outbound(ConnectionMessage::Control(p)) => (ph, ConnectionAction::Send(p)),
            _ => (ConnectionPhase::Closed, ConnectionAction::Stop),
        },
    }
}

/// Handles one event of the connection actor in phase `ph`: the next phase
/// and the action to perform.
pub fn connection_step(ph: ConnectionPhase, e: ConnectionEvent) -> (r: (ConnectionPhase, ConnectionAction))
    ensures
        r == connection_next(ph, e),
{
    match ph {
        ConnectionPhase::Closed => (ph, ConnectionAction::Continue),
        ConnectionPhase::AwaitVersion => match e {
            ConnectionEvent::Server(ClientPacket::Version(v)) => {
                if v == PROTOCOL_VERSION {
                    (ConnectionPhase::Ready, ConnectionAction::Send(ServerPacket::Authenticate))
                } else {
                    (ConnectionPhase::Closed, ConnectionAction::Fail(HandshakeError::VersionMismatch(v)))
                }
            },
            ConnectionEvent::Server(_) => (
                ConnectionPhase::Closed,
                ConnectionAction::Fail(HandshakeError::UnexpectedPacket),
            ),
            ConnectionEvent::ServerClosed => (
                ConnectionPhase::Closed,
                ConnectionAction::Fail(HandshakeError::Closed),
            ),
            ConnectionEvent::WriteFailed => (ConnectionPhase::Closed, ConnectionAction::Stop),
            ConnectionEvent::OutboundClosed => (ConnectionPhase::Closed, ConnectionAction::Stop),
            _ => (ph, ConnectionAction::Continue),
        },
        ConnectionPhase::Ready => match e {
            ConnectionEvent::Server(p) => match p {
                ClientPacket::Tunnel(v) => (ph, ConnectionAction::ToCodec(v)),
                ClientPacket::Ping(ts) => (ph, ConnectionAction::Pong(ts)),
                _ => (ph, ConnectionAction::ToUi(p)),
            },
            ConnectionEvent::PingTick(now) => (ph, ConnectionAction::Send(ServerPacket::Ping(now))),
            ConnectionEvent::Outbound(ConnectionMessage::Voice(v)) => (
                ph,
                ConnectionAction::Send(ServerPacket::Tunnel(v)),
            ),
            ConnectionEvent::Outbound(ConnectionMessage::Control(p)) => (ph, ConnectionAction::Send(p)),
            _ => (ConnectionPhase::Closed, ConnectionAction::Stop),
        },
    }
}

} // verus!
