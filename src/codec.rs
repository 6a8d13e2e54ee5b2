//! Capture framing of the audio codec actor: captured samples are batched
//! in a ring buffer and cut into fixed-size frames, each of which becomes
//! one voice packet once encoded; and the choice of what inbound voice is
//! decoded.
//!
//! Samples are carried as the bit patterns of IEEE-754 singles: framing
//! moves them without reading them.

use vstd::prelude::*;
use crate::protocol::{ClientVoice, Payload, ServerAudio, ServerVoice};

verus! {

/// Audio channels: stereo, interleaved.
pub const CHANNELS: usize = 2;

/// Samples per channel in one frame: 20 ms at 48 kHz.
pub const FRAME_SAMPLES_PER_CHANNEL: usize = 960;

/// Interleaved values in one frame handed to the encoder: 960 samples for
/// each of the two channels, 20 ms of stereo at 48 kHz.
pub const FRAME_SAMPLES: usize = 1920;

/// Capacity of the capture ring: one second of interleaved stereo.
pub const CAPTURE_CAPACITY: usize = 96000;

/// Largest encoded frame the encoder may produce, in bytes.
pub const MAX_OPUS_FRAME: usize = 1024;

/// A bounded FIFO of samples: both ends of one ringbuf ring, owned together.
#[verifier::external_body]
pub struct SampleRing {
    producer: ringbuf::Producer<u32>,
    consumer: ringbuf::Consumer<u32>,
}

/// Samples held by a ring, oldest first.
pub uninterp spec fn ring_contents(r: SampleRing) -> Seq<u32>;

/// Number of samples a ring can hold.
pub uninterp spec fn ring_capacity(r: SampleRing) -> nat;

impl SampleRing {
    /// Relies on ringbuf's `RingBuffer::new` and `split`: an empty ring
    /// holding up to `capacity` items, cut into its two ends.
    #[verifier::external_body]
    pub(crate) fn new(capacity: usize) -> (r: SampleRing)
        requires
            capacity < 0x1000_0000,
        ensures
            ring_contents(r) == Seq::<u32>::empty(),
            ring_capacity(r) == capacity,
    {
        let (producer, consumer) = ringbuf::RingBuffer::new(capacity).split();
        SampleRing { producer, consumer }
    }

    /// Relies on ringbuf's `Consumer::len`: the number of items held (exact,
    /// as no other thread touches this ring).
    #[verifier::external_body]
    pub(crate) fn len(&self) -> (n: usize)
        ensures
            n == ring_contents(*self).len(),
    {
        self.consumer.len()
    }

    /// Relies on ringbuf's `Producer::push_slice`: appends the longest
    /// prefix of `elems` that fits and returns its length.
    #[verifier::external_body]
    pub(crate) fn push_slice(&mut self, elems: &[u32]) -> (n: usize)
        ensures
            n == if elems@.len() <= ring_capacity(*old(self)) - ring_contents(*old(self)).len() {
                elems@.len() as int
            } else {
                ring_capacity(*old(self)) - ring_contents(*old(self)).len()
            },
            ring_contents(*final(self)) == ring_contents(*old(self)) + elems@.subrange(0, n as int),
            ring_capacity(*final(self)) == ring_capacity(*old(self)),
            ring_contents(*final(self)).len() <= ring_capacity(*final(self)),
    {
        self.producer.push_slice(elems)
    }

    /// Relies on ringbuf's `Consumer::pop_slice`: moves the oldest items
    /// into the front of `out`, as many as fit, and returns how many.
    #[verifier::external_body]
    pub(crate) fn pop_slice(&mut self, out: &mut Vec<u32>) -> (n: usize)
        ensures
            n == if old(out)@.len() <= ring_contents(*old(self)).len() {
                old(out)@.len() as int
            } else {
                ring_contents(*old(self)).len() as int
            },
            final(out)@ == ring_contents(*old(self)).subrange(0, n as int) + old(out)@.subrange(
                n as int,
                old(out)@.len() as int,
            ),
            ring_contents(*final(self)) == ring_contents(*old(self)).subrange(
                n as int,
                ring_contents(*old(self)).len() as int,
            ),
            ring_capacity(*final(self)) == ring_capacity(*old(self)),
    {
        self.consumer.pop_slice(out.as_mut_slice())
    }
}

/// Abstract state of the capture framer: the samples waiting for a full
/// frame, and the sequence number of the next voice packet.
pub struct FramerModel {
    pub pending: Seq<u32>,
    pub next_seq: u64,
}

/// Frame `i` of `all`: samples `[i * FRAME_SAMPLES, (i + 1) * FRAME_SAMPLES)`.
pub open spec fn frame_of(all: Seq<u32>, i: int) -> Seq<u32> {
    all.subrange(i * FRAME_SAMPLES as int, (i + 1) * FRAME_SAMPLES as int)
}

/// How many samples of a chunk of `chunk_len` fit next to `pending` held
/// samples; the rest of the chunk is dropped.
pub open spec fn accepted(pending: nat, chunk_len: nat) -> nat {
    if chunk_len + pending <= CAPTURE_CAPACITY {
        chunk_len
    } else {
        (CAPTURE_CAPACITY - pending) as nat
    }
}

/// Voice packet carrying the encoded frame `opus` under sequence number
/// `seq`: spoken to the own room, with no position; `end` marks the last
/// frame before the capture paused.
pub open spec fn capture_packet(opus: Vec<u8>, seq: u64, end: bool) -> ServerVoice {
    ServerVoice::Audio(
        ServerAudio { target: 0, seq_num: seq, payload: Payload::Opus(opus, end), position: None },
    )
}

/// Batches captured samples into frames of `FRAME_SAMPLES` and numbers the
/// voice packets made from them.
pub struct CaptureFramer {
    ring: SampleRing,
    next_seq: u64,
}

impl View for CaptureFramer {
    type V = FramerModel;

    closed spec fn view(&self) -> FramerModel {
        FramerModel { pending: ring_contents(self.ring), next_seq: self.next_seq }
    }
}

impl CaptureFramer {
    /// Well-formedness: the ring has the capture capacity, and it never
    /// keeps a full frame.
    pub closed spec fn wf(&self) -> bool {
        &&& ring_capacity(self.ring) == CAPTURE_CAPACITY
        &&& ring_contents(self.ring).len() < FRAME_SAMPLES
    }

    /// A framer with nothing pending, numbering from 0.
    pub fn new() -> (f: CaptureFramer)
        ensures
            f.wf(),
            f@.pending == Seq::<u32>::empty(),
            f@.next_seq == 0,
    {
        CaptureFramer { ring: SampleRing::new(CAPTURE_CAPACITY), next_seq: 0 }
    }

    /// Pushes a captured chunk and returns every full frame now available,
    /// oldest first. What does not fit in the ring is dropped.
    pub fn push_chunk(&mut self, chunk: &Vec<u32>) -> (frames: Vec<Vec<u32>>)
        requires
            old(self).wf(),
        ensures
            final(self).wf(),
            final(self)@.next_seq == old(self)@.next_seq,
            ({
                let all = old(self)@.pending + chunk@.subrange(
                    0,
                    accepted(old(self)@.pending.len(), chunk@.len()) as int,
                );
                &&& frames@.len() == all.len() as int / (FRAME_SAMPLES as int)
                &&& forall|i: int| 0 <= i < frames@.len() ==> #[trigger] frames@[i]@ == frame_of(all, i)
                &&& forall|i: int| 0 <= i < frames@.len() ==> (#[trigger] frames@[i])@.len() == FRAME_SAMPLES
                &&& final(self)@.pending == all.subrange(
                    frames@.len() * FRAME_SAMPLES as int,
                    all.len() as int,
                )
            }),
    {
        let n = self.ring.push_slice(chunk.as_slice());
        let ghost all = ring_contents(self.ring);
        assert(all == old(self)@.pending + chunk@.subrange(
            0,
            accepted(old(self)@.pending.len(), chunk@.len()) as int,
        ));
        let mut frames: Vec<Vec<u32>> = Vec::new();
        assert(all.subrange(0, all.len() as int) =~= all);
        while self.ring.len() >= FRAME_SAMPLES
            invariant
                ring_capacity(self.ring) == CAPTURE_CAPACITY,
                self.next_seq == old(self).next_seq,
                frames@.len() * FRAME_SAMPLES + ring_contents(self.ring).len() == all.len(),
                ring_contents(self.ring) == all.subrange(
                    frames@.len() * FRAME_SAMPLES as int,
                    all.len() as int,
                ),
                forall|i: int| 0 <= i < frames@.len() ==> #[trigger] frames@[i]@ == frame_of(all, i),
                forall|i: int| 0 <= i < frames@.len() ==> (#[trigger] frames@[i])@.len() == FRAME_SAMPLES,
            decreases ring_contents(self.ring).len(),
        {
            let ghost before = ring_contents(self.ring);
            let mut frame: Vec<u32> = vec![0u32; FRAME_SAMPLES];
            let got = self.ring.pop_slice(&mut frame);
            proof {
                let k = frames@.len() as int;
                assert(got == FRAME_SAMPLES);
                assert(frame@ =~= frame_of(all, k));
                assert(ring_contents(self.ring) =~= all.subrange(
                    (k + 1) * FRAME_SAMPLES as int,
                    all.len() as int,
                ));
            }
            frames.push(frame);
        }
        proof {
            let k = frames@.len() as int;
            let len = ring_contents(self.ring).len() as int;
            assert(k * 1920 + len == all.len() && 0 <= len < 1920);
            assert(k == all.len() / 1920) by (nonlinear_arith)
                requires
                    k * 1920 + len == all.len(),
                    0 <= len < 1920,
            ;
        }
        frames
    }

    /// The last frame before the capture pauses: the pending samples,
    /// completed with silence (zero bits) to a full frame. Nothing is left
    /// pending.
    pub fn flush(&mut self) -> (frame: Vec<u32>)
        requires
            old(self).wf(),
        ensures
            final(self).wf(),
            final(self)@.next_seq == old(self)@.next_seq,
            final(self)@.pending == Seq::<u32>::empty(),
            frame@ == old(self)@.pending + Seq::new(
                (FRAME_SAMPLES - old(self)@.pending.len()) as nat,
                |i: int| 0u32,
            ),
    {
        let mut frame: Vec<u32> = vec![0u32; FRAME_SAMPLES];
        let ghost before = ring_contents(self.ring);
        let n = self.ring.pop_slice(&mut frame);
        proof {
            assert(before.subrange(0, n as int) =~= before);
            assert(ring_contents(self.ring) =~= Seq::<u32>::empty());
            assert(frame@ =~= before + Seq::new((FRAME_SAMPLES - before.len()) as nat, |i: int| 0u32));
        }
        frame
    }

    /// The voice packet for the next encoded frame, with the given
    /// end-of-transmission flag: numbered with the next sequence number,
    /// which then advances (wrapping).
    pub fn frame_packet(&mut self, opus: Vec<u8>, end: bool) -> (v: ServerVoice)
        requires
            old(self).wf(),
        ensures
            final(self).wf(),
            v == capture_packet(opus, old(self)@.next_seq, end),
            final(self)@.pending == old(self)@.pending,
            final(self)@.next_seq == (if old(self)@.next_seq == u64::MAX {
                0
            } else {
                old(self)@.next_seq + 1
            }),
    {
        let seq = self.next_seq;
        self.next_seq = if seq == u64::MAX {
            0
        } else {
            seq + 1
        };
        ServerVoice::Audio(
            ServerAudio { target: 0, seq_num: seq, payload: Payload::Opus(opus, end), position: None },
        )
    }
}

/// The Opus frame to decode from an inbound voice packet, with its
/// end-of-transmission flag; other codecs and voice pings yield nothing.
pub open spec fn opus_frame(v: ClientVoice) -> Option<(Vec<u8>, bool)> {
    match v {
        ClientVoice::Audio(a) => match a.payload {
            Payload::Opus(bytes, end) => Some((bytes, end)),
            _ => None,
        },
        ClientVoice::Ping(_) => None,
    }
}

/// Takes the Opus frame out of an inbound voice packet, if it carries one.
pub fn inbound_opus(v: ClientVoice) -> (r: Option<(Vec<u8>, bool)>)
    ensures
        r == opus_frame(v),
{
    match v {
        ClientVoice::Audio(a) => match a.payload {
            Payload::Opus(bytes, end) => Some((bytes, end)),
            _ => None,
        },
        ClientVoice::Ping(_) => None,
    }
}

/// A frame captured and encoded by one client, routed by the server to
/// another client, is decoded there as exactly the bytes the encoder
/// produced: the stamping by the server keeps the payload.
pub proof fn lemma_capture_decode_round_trip(opus: Vec<u8>, seq: u64, end: bool, sender: u32)
    ensures
        opus_frame(
            ClientVoice::Audio(
                crate::routing::stamped_audio(capture_packet(opus, seq, end)->Audio_0, sender),
            ),
        ) == Some((opus, end)),
{
}

} // verus!
