use stammer::codec::{inbound_opus, CaptureFramer, FRAME_SAMPLES, FRAME_SAMPLES_PER_CHANNEL, MAX_OPUS_FRAME};
use stammer::connection::{
    connection_step, hello, ping_period_ms, ConnectionAction, ConnectionEvent, ConnectionMessage, ConnectionPhase,
    HandshakeError,
};
use stammer::protocol::{
    pack_version, ClientAudio, ClientPacket, ClientVoice, Payload, ServerAudio, ServerPacket, ServerVoice,
    PROTOCOL_VERSION,
};

#[test]
fn version_packing() {
    assert_eq!(pack_version(1, 2, 4), PROTOCOL_VERSION);
    assert_eq!(PROTOCOL_VERSION, 66052);
}

#[test]
fn handshake_then_authenticate() {
    assert_eq!(hello(), ServerPacket::Version(PROTOCOL_VERSION));
    let (ph, a) = connection_step(ConnectionPhase::AwaitVersion, ConnectionEvent::Server(ClientPacket::Version(PROTOCOL_VERSION)));
    assert_eq!(ph, ConnectionPhase::Ready);
    assert!(matches!(a, ConnectionAction::Send(ServerPacket::Authenticate)));
}

#[test]
fn handshake_failures() {
    let (ph, a) = connection_step(ConnectionPhase::AwaitVersion, ConnectionEvent::Server(ClientPacket::Version(0x10300)));
    assert_eq!(ph, ConnectionPhase::Closed);
    assert!(matches!(a, ConnectionAction::Fail(HandshakeError::VersionMismatch(0x10300))));
    let (_, a) = connection_step(ConnectionPhase::AwaitVersion, ConnectionEvent::Server(ClientPacket::Ping(1)));
    assert!(matches!(a, ConnectionAction::Fail(HandshakeError::UnexpectedPacket)));
    let (_, a) = connection_step(ConnectionPhase::AwaitVersion, ConnectionEvent::ServerClosed);
    assert!(matches!(a, ConnectionAction::Fail(HandshakeError::Closed)));
}

#[test]
fn ready_dispatch() {
    let r = ConnectionPhase::Ready;
    let (_, a) = connection_step(r, ConnectionEvent::PingTick(1_700_000_000));
    assert!(matches!(a, ConnectionAction::Send(ServerPacket::Ping(1_700_000_000))));
    let v = ServerVoice::Ping(2);
    let (_, a) = connection_step(r, ConnectionEvent::Outbound(ConnectionMessage::Voice(v.clone())));
    assert!(matches!(a, ConnectionAction::Send(ServerPacket::Tunnel(x)) if x == v));
    let (_, a) = connection_step(r, ConnectionEvent::Outbound(ConnectionMessage::Control(ServerPacket::Authenticate)));
    assert!(matches!(a, ConnectionAction::Send(ServerPacket::Authenticate)));
    let (_, a) = connection_step(r, ConnectionEvent::Server(ClientPacket::Ping(9)));
    assert!(matches!(a, ConnectionAction::Pong(9)));
    let (_, a) = connection_step(r, ConnectionEvent::Server(ClientPacket::Tunnel(ClientVoice::Ping(4))));
    assert!(matches!(a, ConnectionAction::ToCodec(ClientVoice::Ping(4))));
    let (_, a) = connection_step(r, ConnectionEvent::Server(ClientPacket::Other("ChannelState".to_string())));
    assert!(matches!(a, ConnectionAction::ToUi(_)));
    let (ph, a) = connection_step(r, ConnectionEvent::ServerClosed);
    assert_eq!(ph, ConnectionPhase::Closed);
    assert!(matches!(a, ConnectionAction::Stop));
    assert_eq!(ping_period_ms(30_000), 15_000);
}

#[test]
fn one_frame_per_chunk() {
    assert_eq!(FRAME_SAMPLES, 1920);
    assert_eq!(FRAME_SAMPLES_PER_CHANNEL, 960);
    let mut f = CaptureFramer::new();
    // one 20 ms stereo chunk: 960 samples for each of the two channels
    let chunk: Vec<u32> = (0..1920u32).map(|i| (((i / 2) as f32) * 0.1).sin().to_bits()).collect();
    let frames = f.push_chunk(&chunk);
    assert_eq!(frames.len(), 1);
    assert_eq!(frames[0].len(), FRAME_SAMPLES);
    assert_eq!(frames[0], chunk);
    let frames = f.push_chunk(&chunk);
    assert_eq!(frames.len(), 1);
}

#[test]
fn partial_chunks_are_batched() {
    let mut f = CaptureFramer::new();
    let a: Vec<u32> = (0..1200u32).collect();
    let b: Vec<u32> = (1200..3000u32).collect();
    assert!(f.push_chunk(&a).is_empty());
    let frames = f.push_chunk(&b);
    assert_eq!(frames.len(), 1);
    assert_eq!(frames[0], (0..1920u32).collect::<Vec<u32>>());
    let c: Vec<u32> = (3000..3840u32).collect();
    let frames = f.push_chunk(&c);
    assert_eq!(frames.len(), 1);
    assert_eq!(frames[0], (1920..3840u32).collect::<Vec<u32>>());
}

#[test]
fn overflow_drops_the_tail() {
    let mut f = CaptureFramer::new();
    let big: Vec<u32> = (0..100_000u32).collect();
    let frames = f.push_chunk(&big);
    assert_eq!(frames.len(), 50);
    assert_eq!(frames[49], (94_080..96_000u32).collect::<Vec<u32>>());
    assert!(f.push_chunk(&vec![]).is_empty());
}

#[test]
fn flush_pads_with_silence() {
    let mut f = CaptureFramer::new();
    let a: Vec<u32> = (1..101u32).collect();
    assert!(f.push_chunk(&a).is_empty());
    let frame = f.flush();
    assert_eq!(frame.len(), FRAME_SAMPLES);
    assert_eq!(frame[..100].to_vec(), a);
    assert!(frame[100..].iter().all(|b| *b == 0));
    let frame = f.flush();
    assert_eq!(frame, vec![0u32; FRAME_SAMPLES]);
    let packet = f.frame_packet(vec![9], true);
    assert_eq!(
        packet,
        ServerVoice::Audio(ServerAudio { target: 0, seq_num: 0, payload: Payload::Opus(vec![9], true), position: None })
    );
}

#[test]
fn capture_packets_are_numbered_and_decode_back() {
    let mut f = CaptureFramer::new();
    let payload = vec![7u8; 120];
    assert!(payload.len() <= MAX_OPUS_FRAME);
    let first = f.frame_packet(payload.clone(), false);
    let second = f.frame_packet(vec![1, 2, 3], false);
    let a0 = match first {
        ServerVoice::Audio(a) => a,
        _ => panic!("audio expected"),
    };
    assert_eq!(a0, ServerAudio { target: 0, seq_num: 0, payload: Payload::Opus(payload.clone(), false), position: None });
    assert!(matches!(second, ServerVoice::Audio(ServerAudio { seq_num: 1, .. })));
    let back = ClientVoice::Audio(ClientAudio {
        target: a0.target,
        session_id: 3,
        seq_num: a0.seq_num,
        payload: a0.payload,
        position: a0.position,
    });
    assert_eq!(inbound_opus(back), Some((payload, false)));
}

#[test]
fn non_opus_is_not_decoded() {
    let speex = ClientVoice::Audio(ClientAudio {
        target: 0,
        session_id: 1,
        seq_num: 0,
        payload: Payload::Speex(vec![vec![1, 2]]),
        position: None,
    });
    assert_eq!(inbound_opus(speex), None);
    assert_eq!(inbound_opus(ClientVoice::Ping(3)), None);
}
