use stammer::acceptor::{AcceptAction, AcceptEvent, Acceptor};
use stammer::control::{ControlActor, ControlError, ControlMessage, ControlOutcome, UnAuthSession};
use stammer::protocol::{
    ClientAudio, ClientPacket, ClientVoice, Payload, ServerAudio, ServerPacket, ServerVoice, TextMessage,
    PROTOCOL_VERSION,
};
use stammer::routing::{RoutingActor, RoutingMessage, RoutingOutcome};
use stammer::routing_table::RouteError;
use stammer::session::{SessionAction, SessionEvent, SessionPhase, SessionState};
use tokio::sync::mpsc::{unbounded_channel, UnboundedReceiver};

/// Declares and authenticates a session; returns its client-bound receiver.
fn join(control: ControlActor, routing: &mut RoutingActor, id: u32) -> (ControlActor, UnboundedReceiver<ClientPacket>) {
    let (tx, rx) = unbounded_channel();
    let (control, out) = control.handle(ControlMessage::AddSession(id, UnAuthSession { version: PROTOCOL_VERSION, send: tx }));
    assert!(matches!(out, ControlOutcome::Unchanged));
    let (control, out) = control.handle(ControlMessage::Packet(id, ServerPacket::Authenticate));
    match out {
        ControlOutcome::Publish(t) => {
            assert!(t.holds_session(id));
            assert!(matches!(routing.handle(RoutingMessage::Update(t)), RoutingOutcome::Updated));
        }
        _ => panic!("authentication must publish a snapshot"),
    }
    (control, rx)
}

fn text(sessions: Vec<u32>, channels: Vec<u32>, actor: Option<u32>, message: &str) -> TextMessage {
    TextMessage { actor, sessions, channels, trees: vec![], message: message.to_string() }
}

#[test]
fn single_client_round_trip() {
    let s = SessionState::new(0, 30_000);
    assert_eq!(s.greeting(), ClientPacket::Version(PROTOCOL_VERSION));
    let (s, a) = s.step(SessionEvent::Inbound(ServerPacket::Version(PROTOCOL_VERSION), 100));
    assert!(matches!(a, SessionAction::Declare(v) if v == PROTOCOL_VERSION));
    assert_eq!(s.phase, SessionPhase::Established);

    let mut routing = RoutingActor::new();
    let (control, _rx) = join(ControlActor::new(), &mut routing, 0);

    let (s, a) = s.step(SessionEvent::Inbound(ServerPacket::Ping(1234), 200));
    assert!(matches!(a, SessionAction::Reply(ClientPacket::Ping(1234))));
    assert_eq!(s.last_ping_ms, 200);

    let (s, a) = s.step(SessionEvent::ReadFailed);
    assert!(matches!(a, SessionAction::Stop { remove: true }));
    assert_eq!(s.phase, SessionPhase::Terminated);

    let (control, out) = control.handle(ControlMessage::RemoveSession(0));
    match out {
        ControlOutcome::Publish(t) => assert!(!t.holds_session(0)),
        _ => panic!("removal must publish"),
    }
    let (_control, out) = control.handle(ControlMessage::Shutdown);
    assert!(matches!(out, ControlOutcome::Close));
    assert!(matches!(routing.handle(RoutingMessage::Shutdown), RoutingOutcome::Close));
}

#[test]
fn text_fan_out() {
    let mut routing = RoutingActor::new();
    let (control, mut rx_a) = join(ControlActor::new(), &mut routing, 0);
    let (_control, mut rx_b) = join(control, &mut routing, 1);

    let out = routing.handle(RoutingMessage::Text(0, text(vec![], vec![0], Some(999), "hi")));
    match out {
        RoutingOutcome::Text { message, recipients, pushed } => {
            assert_eq!(message.actor, Some(0));
            assert_eq!(recipients, vec![1]);
            assert_eq!(pushed.len(), 1);
            assert_eq!(pushed[0].0, 1);
            assert_eq!(pushed[0].1, ClientPacket::Text(message.clone()));
        }
        _ => panic!("text must be routed"),
    }
    match rx_b.try_recv() {
        Ok(ClientPacket::Text(m)) => {
            assert_eq!(m.actor, Some(0));
            assert_eq!(m.message, "hi");
        }
        _ => panic!("B must receive the text"),
    }
    assert!(rx_a.try_recv().is_err());
}

#[test]
fn voice_fan_out() {
    let mut routing = RoutingActor::new();
    let (control, mut rx_a) = join(ControlActor::new(), &mut routing, 0);
    let (_control, mut rx_b) = join(control, &mut routing, 1);

    let zeta = vec![0xde, 0xad, 0xbe, 0xef];
    let audio = ServerAudio { target: 0, seq_num: 7, payload: Payload::Opus(zeta.clone(), false), position: None };
    let out = routing.handle(RoutingMessage::Voice(0, ServerVoice::Audio(audio)));
    let expected = ClientAudio { target: 0, session_id: 0, seq_num: 7, payload: Payload::Opus(zeta, false), position: None };
    match out {
        RoutingOutcome::Voice { packet, recipients, pushed } => {
            assert_eq!(packet, expected);
            assert_eq!(recipients, vec![1]);
            assert_eq!(pushed, vec![(1, ClientPacket::Tunnel(ClientVoice::Audio(expected.clone())))]);
        }
        _ => panic!("voice must be routed"),
    }
    match rx_b.try_recv() {
        Ok(ClientPacket::Tunnel(ClientVoice::Audio(a))) => assert_eq!(a, expected),
        _ => panic!("B must receive the voice packet"),
    }
    assert!(rx_a.try_recv().is_err());
}

#[test]
fn timeout_eviction() {
    let s = SessionState::new(0, 30_000);
    let (s, _) = s.step(SessionEvent::Inbound(ServerPacket::Version(PROTOCOL_VERSION), 1_000));
    let (s, a) = s.step(SessionEvent::Tick(31_000));
    assert!(matches!(a, SessionAction::Continue));
    let (s, a) = s.step(SessionEvent::Tick(31_001));
    assert!(matches!(a, SessionAction::Stop { remove: true }));
    assert_eq!(s.phase, SessionPhase::Terminated);

    let mut routing = RoutingActor::new();
    let (control, _rx_a) = join(ControlActor::new(), &mut routing, 0);
    let (control, mut rx_b) = join(control, &mut routing, 1);
    let (_control, out) = control.handle(ControlMessage::RemoveSession(0));
    match out {
        ControlOutcome::Publish(t) => {
            assert!(!t.holds_session(0));
            routing.handle(RoutingMessage::Update(t));
        }
        _ => panic!("eviction must publish"),
    }
    let out = routing.handle(RoutingMessage::Text(1, text(vec![0], vec![], None, "are you there")));
    match out {
        RoutingOutcome::Text { recipients, pushed, .. } => {
            assert!(recipients.is_empty());
            assert!(pushed.is_empty());
        }
        _ => panic!("text from B must be handled"),
    }
    assert!(rx_b.try_recv().is_err());
}

#[test]
fn unauthenticated_misbehaviour() {
    let mut routing = RoutingActor::new();
    let (tx, _rx) = unbounded_channel();
    let control = ControlActor::new();
    let (control, _) = control.handle(ControlMessage::AddSession(5, UnAuthSession { version: PROTOCOL_VERSION, send: tx }));
    let (control, out) = control.handle(ControlMessage::Packet(5, ServerPacket::Text(text(vec![], vec![0], None, "x"))));
    assert!(matches!(out, ControlOutcome::Violation(ControlError::UnauthenticatedPacket(5))));
    // the routing actor drops text from a session missing from its snapshot
    let out = routing.handle(RoutingMessage::Text(5, text(vec![], vec![0], None, "x")));
    assert!(matches!(out, RoutingOutcome::Dropped(RouteError::UnknownSender(5))));
    // still waiting: authentication goes through
    let (_control, out) = control.handle(ControlMessage::Packet(5, ServerPacket::Authenticate));
    assert!(matches!(out, ControlOutcome::Publish(_)));
}

#[test]
fn unknown_session_violations() {
    let control = ControlActor::new();
    let (control, out) = control.handle(ControlMessage::Packet(3, ServerPacket::Authenticate));
    assert!(matches!(out, ControlOutcome::Violation(ControlError::UnknownSession(3))));
    let (_control, out) = control.handle(ControlMessage::RemoveSession(3));
    assert!(matches!(out, ControlOutcome::Violation(ControlError::UnknownRemoval(3))));
}

#[test]
fn authenticated_packets_are_ignored() {
    let mut routing = RoutingActor::new();
    let (control, _rx) = join(ControlActor::new(), &mut routing, 2);
    let (control, out) = control.handle(ControlMessage::Packet(2, ServerPacket::Authenticate));
    assert!(matches!(out, ControlOutcome::Unchanged));
    let (_control, out) = control.handle(ControlMessage::Packet(2, ServerPacket::Other("UserState".to_string())));
    assert!(matches!(out, ControlOutcome::Unchanged));
}

#[test]
fn remove_waiting_session_publishes_nothing() {
    let (tx, _rx) = unbounded_channel();
    let control = ControlActor::new();
    let (control, _) = control.handle(ControlMessage::AddSession(4, UnAuthSession { version: 1, send: tx }));
    let (control, out) = control.handle(ControlMessage::RemoveSession(4));
    assert!(matches!(out, ControlOutcome::Unchanged));
    let (_control, out) = control.handle(ControlMessage::Packet(4, ServerPacket::Authenticate));
    assert!(matches!(out, ControlOutcome::Violation(ControlError::UnknownSession(4))));
}

#[test]
fn voice_drops() {
    let mut routing = RoutingActor::new();
    let (_control, _rx) = join(ControlActor::new(), &mut routing, 0);
    let audio = ServerAudio { target: 3, seq_num: 0, payload: Payload::Opus(vec![1], false), position: None };
    assert!(matches!(
        routing.handle(RoutingMessage::Voice(0, ServerVoice::Audio(audio.clone()))),
        RoutingOutcome::Dropped(RouteError::UnsupportedTarget(3))
    ));
    assert!(matches!(
        routing.handle(RoutingMessage::Voice(8, ServerVoice::Audio(audio))),
        RoutingOutcome::Dropped(RouteError::UnknownSender(8))
    ));
    assert!(matches!(
        routing.handle(RoutingMessage::Voice(0, ServerVoice::Ping(5))),
        RoutingOutcome::Dropped(RouteError::VoicePing)
    ));
}

#[test]
fn session_forwards_by_kind() {
    let s = SessionState::new(9, 1_000);
    let (s, _) = s.step(SessionEvent::Inbound(ServerPacket::Version(PROTOCOL_VERSION), 0));
    let voice = ServerVoice::Ping(1);
    let (s, a) = s.step(SessionEvent::Inbound(ServerPacket::Tunnel(voice.clone()), 5));
    assert!(matches!(a, SessionAction::ForwardVoice(v) if v == voice));
    let (s, a) = s.step(SessionEvent::Inbound(ServerPacket::Text(text(vec![], vec![], None, "t")), 5));
    assert!(matches!(a, SessionAction::ForwardText(_)));
    let (s, a) = s.step(SessionEvent::Inbound(ServerPacket::Authenticate, 5));
    assert!(matches!(a, SessionAction::ForwardControl(ServerPacket::Authenticate)));
    let (s, a) = s.step(SessionEvent::Outbound(ClientPacket::Ping(3)));
    assert!(matches!(a, SessionAction::Reply(ClientPacket::Ping(3))));
    let (s, a) = s.step(SessionEvent::OutboundClosed);
    assert!(matches!(a, SessionAction::Stop { remove: false }));
    let (_s, a) = s.step(SessionEvent::ReadFailed);
    assert!(matches!(a, SessionAction::Continue));
}

#[test]
fn greeting_failure_is_silent() {
    let s = SessionState::new(1, 1_000);
    let (s, a) = s.step(SessionEvent::Inbound(ServerPacket::Authenticate, 0));
    assert!(matches!(a, SessionAction::Stop { remove: false }));
    assert_eq!(s.phase, SessionPhase::Terminated);
}

#[test]
fn acceptor_assigns_increasing_ids_and_stops() {
    let a = Acceptor::new();
    let (a, x) = a.step(AcceptEvent::Connection);
    assert_eq!(x, AcceptAction::Spawn(0));
    let (a, x) = a.step(AcceptEvent::Connection);
    assert_eq!(x, AcceptAction::Spawn(1));
    let (a, x) = a.step(AcceptEvent::Stop);
    assert_eq!(x, AcceptAction::Shutdown);
    let (_a, x) = a.step(AcceptEvent::Connection);
    assert_eq!(x, AcceptAction::Ignore);
    let b = Acceptor { issued: 0x1_0000_0000, stopped: false };
    assert_eq!(b.step(AcceptEvent::Connection).1, AcceptAction::Refuse);
    assert_eq!(Acceptor::new().step(AcceptEvent::AcceptFailed).1, AcceptAction::Shutdown);
}

#[test]
fn table_invariants_after_mixed_events() {
    let mut routing = RoutingActor::new();
    let mut control = ControlActor::new();
    let mut receivers = vec![];
    for id in 0..6u32 {
        let (tx, rx) = unbounded_channel();
        receivers.push(rx);
        let (c, _) = control.handle(ControlMessage::AddSession(id, UnAuthSession { version: PROTOCOL_VERSION, send: tx }));
        control = c;
    }
    let mut last = None;
    for msg in [
        ControlMessage::Packet(0, ServerPacket::Authenticate),
        ControlMessage::Packet(1, ServerPacket::Authenticate),
        ControlMessage::RemoveSession(2),
        ControlMessage::Packet(3, ServerPacket::Authenticate),
        ControlMessage::RemoveSession(1),
        ControlMessage::Packet(4, ServerPacket::Authenticate),
        ControlMessage::RemoveSession(9),
    ] {
        let (c, out) = control.handle(msg);
        control = c;
        if let ControlOutcome::Publish(t) = out {
            last = Some(t.snapshot());
            routing.handle(RoutingMessage::Update(t));
        }
    }
    let t = last.unwrap();
    let mut members = t.room_members(0, None);
    members.sort();
    assert_eq!(members, vec![0, 3, 4]);
    for id in 0..6u32 {
        assert_eq!(t.holds_session(id), [0, 3, 4].contains(&id));
    }
    // the routing actor routes from the same table
    match routing.handle(RoutingMessage::Text(3, text(vec![], vec![0], None, "all"))) {
        RoutingOutcome::Text { mut recipients, .. } => {
            recipients.sort();
            assert_eq!(recipients, vec![0, 4]);
        }
        _ => panic!("text must be routed"),
    }
}

#[test]
fn declaring_an_authenticated_session_again_is_refused() {
    let mut routing = RoutingActor::new();
    let (control, _rx) = join(ControlActor::new(), &mut routing, 6);
    let (tx, _rx2) = unbounded_channel();
    let (control, out) = control.handle(ControlMessage::AddSession(6, UnAuthSession { version: PROTOCOL_VERSION, send: tx }));
    assert!(matches!(out, ControlOutcome::Violation(ControlError::AlreadyAuthenticated(6))));
    // the enrolled session is still removed as a whole
    let (_control, out) = control.handle(ControlMessage::RemoveSession(6));
    match out {
        ControlOutcome::Publish(t) => assert!(!t.holds_session(6)),
        _ => panic!("removal must publish"),
    }
}

#[test]
fn closed_sinks_are_skipped() {
    let mut routing = RoutingActor::new();
    let (control, rx_a) = join(ControlActor::new(), &mut routing, 0);
    let (control, rx_b) = join(control, &mut routing, 1);
    let (_control, mut rx_c) = join(control, &mut routing, 2);
    drop(rx_b);
    let out = routing.handle(RoutingMessage::Text(0, text(vec![], vec![0], None, "x")));
    match out {
        RoutingOutcome::Text { mut recipients, pushed, .. } => {
            recipients.sort();
            assert_eq!(recipients, vec![1, 2]);
            assert_eq!(pushed.len(), 2);
        }
        _ => panic!("text must be routed"),
    }
    assert!(matches!(rx_c.try_recv(), Ok(ClientPacket::Text(_))));
    drop(rx_a);
}
