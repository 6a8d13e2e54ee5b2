//! Plain models of the wire packets that the core routes.
//!
//! Framing and parsing are done elsewhere; this module holds the values
//! that the routing and session logic reads and writes.

use vstd::prelude::*;

verus! {

/// Protocol version advertised by both deployments: 1.2.4, packed as
/// `major << 16 | minor << 8 | patch`.
pub const PROTOCOL_VERSION: u32 = 0x0001_0204;

/// Mathematical value of a packed protocol version.
pub open spec fn packed_version(major: u8, minor: u8, patch: u8) -> int {
    major as int * 65536 + minor as int * 256 + patch as int
}

/// Packs a `major.minor.patch` triple into the 32-bit wire form.
pub fn pack_version(major: u8, minor: u8, patch: u8) -> (r: u32)
    ensures
        r as int == packed_version(major, minor, patch),
{
    (major as u32) * 65536 + (minor as u32) * 256 + (patch as u32)
}

/// Codec payload of an audio packet. Only Opus is decoded by the client;
/// the server forwards every payload unchanged.
#[derive(Clone, Debug, PartialEq, Eq)]
pub enum Payload {
    CeltAlpha(Vec<Vec<u8>>),
    Speex(Vec<Vec<u8>>),
    CeltBeta(Vec<Vec<u8>>),
    /// Opus frame bytes and the end-of-transmission flag.
    Opus(Vec<u8>, bool),
}

/// Audio packet as sent by a client: it carries no originator.
#[derive(Clone, Debug, PartialEq, Eq)]
pub struct ServerAudio {
    pub target: u8,
    pub seq_num: u64,
    pub payload: Payload,
    /// Positional audio data, forwarded as it is.
    pub position: Option<Vec<u8>>,
}

/// Audio packet as delivered to a client: stamped with its originator.
#[derive(Clone, Debug, PartialEq, Eq)]
pub struct ClientAudio {
    pub target: u8,
    pub session_id: u32,
    pub seq_num: u64,
    pub payload: Payload,
    /// Positional audio data, forwarded as it is.
    pub position: Option<Vec<u8>>,
}

/// Voice channel packet travelling towards the server.
#[derive(Clone, Debug, PartialEq, Eq)]
pub enum ServerVoice {
    Ping(u64),
    Audio(ServerAudio),
}

/// Voice channel packet travelling towards a client.
#[derive(Clone, Debug, PartialEq, Eq)]
pub enum ClientVoice {
    Ping(u64),
    Audio(ClientAudio),
}

/// Text message: `actor` is stamped by the server, `sessions` and
/// `channels` address sessions and rooms, `trees` addresses room trees
/// (carried, not routed).
#[derive(Clone, Debug, PartialEq, Eq)]
pub struct TextMessage {
    pub actor: Option<u32>,
    pub sessions: Vec<u32>,
    pub channels: Vec<u32>,
    pub trees: Vec<u32>,
    pub message: String,
}

/// Control packet sent by a client to the server.
#[derive(Clone, Debug, PartialEq, Eq)]
pub enum ServerPacket {
    Version(u32),
    Authenticate,
    Ping(u64),
    Text(TextMessage),
    Tunnel(ServerVoice),
    /// Any other control packet, by its kind name.
    Other(String),
}

/// Control packet sent by the server to a client.
#[derive(Clone, Debug, PartialEq, Eq)]
pub enum ClientPacket {
    Version(u32),
    Ping(u64),
    Text(TextMessage),
    Tunnel(ClientVoice),
    /// Any other control packet, by its kind name.
    Other(String),
}

/// Two lists of codec frames hold the same bytes.
pub open spec fn frames_match(a: Vec<Vec<u8>>, b: Vec<Vec<u8>>) -> bool {
    &&& a@.len() == b@.len()
    &&& forall|i: int| 0 <= i < a@.len() ==> (#[trigger] a@[i])@ == b@[i]@
}

/// Two payloads are of the same codec and hold the same bytes and flags.
pub open spec fn payload_matches(a: Payload, b: Payload) -> bool {
    match (a, b) {
        (Payload::CeltAlpha(x), Payload::CeltAlpha(y)) => frames_match(x, y),
        (Payload::Speex(x), Payload::Speex(y)) => frames_match(x, y),
        (Payload::CeltBeta(x), Payload::CeltBeta(y)) => frames_match(x, y),
        (Payload::Opus(x, e), Payload::Opus(y, f)) => x@ == y@ && e == f,
        _ => false,
    }
}

/// Two optional positions hold the same bytes.
pub open spec fn position_matches(a: Option<Vec<u8>>, b: Option<Vec<u8>>) -> bool {
    match (a, b) {
        (Some(x), Some(y)) => x@ == y@,
        (None, None) => true,
        _ => false,
    }
}

/// Two client-bound audio packets agree in every field.
pub open spec fn audio_matches(a: ClientAudio, b: ClientAudio) -> bool {
    &&& a.target == b.target
    &&& a.session_id == b.session_id
    &&& a.seq_num == b.seq_num
    &&& payload_matches(a.payload, b.payload)
    &&& position_matches(a.position, b.position)
}

/// Two text messages agree in every field.
pub open spec fn text_matches(a: TextMessage, b: TextMessage) -> bool {
    &&& a.actor == b.actor
    &&& a.sessions@ == b.sessions@
    &&& a.channels@ == b.channels@
    &&& a.trees@ == b.trees@
    &&& a.message@ == b.message@
}

fn copy_bytes(v: &Vec<u8>) -> (r: Vec<u8>)
    ensures
        r@ == v@,
{
    let mut r: Vec<u8> = Vec::new();
    let mut i: usize = 0;
    while i < v.len()
        invariant
            i <= v@.len(),
            r@ == v@.subrange(0, i as int),
        decreases v@.len() - i,
    {
        r.push(v[i]);
        i = i + 1;
        assert(r@ =~= v@.subrange(0, i as int));
    }
    assert(v@.subrange(0, v@.len() as int) =~= v@);
    r
}

fn copy_ids(v: &Vec<u32>) -> (r: Vec<u32>)
    ensures
        r@ == v@,
{
    let mut r: Vec<u32> = Vec::new();
    let mut i: usize = 0;
    while i < v.len()
        invariant
            i <= v@.len(),
            r@ == v@.subrange(0, i as int),
        decreases v@.len() - i,
    {
        r.push(v[i]);
        i = i + 1;
        assert(r@ =~= v@.subrange(0, i as int));
    }
    assert(v@.subrange(0, v@.len() as int) =~= v@);
    r
}

fn copy_frames(v: &Vec<Vec<u8>>) -> (r: Vec<Vec<u8>>)
    ensures
        frames_match(r, *v),
{
    let mut r: Vec<Vec<u8>> = Vec::new();
    let mut i: usize = 0;
    while i < v.len()
        invariant
            i <= v@.len(),
            r@.len() == i,
            forall|j: int| 0 <= j < i ==> (#[trigger] r@[j])@ == v@[j]@,
        decreases v@.len() - i,
    {
        r.push(copy_bytes(&v[i]));
        i = i + 1;
    }
    r
}

impl Payload {
    /// A copy holding the same bytes.
    pub fn duplicate(&self) -> (r: Payload)
        ensures
            payload_matches(r, *self),
    {
        match self {
            Payload::CeltAlpha(f) => Payload::CeltAlpha(copy_frames(f)),
            Payload::Speex(f) => Payload::Speex(copy_frames(f)),
            Payload::CeltBeta(f) => Payload::CeltBeta(copy_frames(f)),
            Payload::Opus(b, end) => Payload::Opus(copy_bytes(b), *end),
        }
    }
}

impl ClientAudio {
    /// A copy agreeing in every field.
    pub fn duplicate(&self) -> (r: ClientAudio)
        ensures
            audio_matches(r, *self),
    {
        let position = match &self.position {
            Some(p) => Some(copy_bytes(p)),
            None => None,
        };
        ClientAudio {
            target: self.target,
            session_id: self.session_id,
            seq_num: self.seq_num,
            payload: self.payload.duplicate(),
            position,
        }
    }
}

impl TextMessage {
    /// A copy agreeing in every field.
    pub fn duplicate(&self) -> (r: TextMessage)
        ensures
            text_matches(r, *self),
    {
        TextMessage {
            actor: self.actor,
            sessions: copy_ids(&self.sessions),
            channels: copy_ids(&self.channels),
            trees: copy_ids(&self.trees),
            message: self.message.clone(),
        }
    }
}

} // verus!
