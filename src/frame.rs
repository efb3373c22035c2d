//! Wire frames: `[SYNC, LEN, payload.., CRC]` with `LEN = len(payload) + 1`
//! and `CRC` the checksum of the payload. Encoding, and a decoder that is
//! fed one byte at a time and resynchronises on noise.

use vstd::prelude::*;
use crate::crc::{crc8, crc8_spec};
use crate::error::SerialError;

verus! {

/// The sentinel that starts every frame.
pub const SYNC_BYTE: u8 = 0xC8;

/// The largest frame, sync byte and length byte not counted.
pub const MAX_FRAME_LEN: usize = 254;

/// The largest payload a frame can carry.
pub const MAX_PAYLOAD_LEN: usize = 252;

/// A payload that fits in a frame: at least the message-type byte, at most
/// `MAX_PAYLOAD_LEN` bytes.
pub open spec fn encodable(payload: Seq<u8>) -> bool {
    1 <= payload.len() <= MAX_PAYLOAD_LEN
}

/// A length byte that announces a frame the decoder accepts.
pub open spec fn valid_len_field(len: u8) -> bool {
    2 <= len <= MAX_FRAME_LEN
}

/// The wire frame that carries `payload`.
pub open spec fn frame_of(payload: Seq<u8>) -> Seq<u8> {
    seq![SYNC_BYTE, (payload.len() + 1) as u8] + payload + seq![crc8_spec(payload)]
}

/// Encodes `payload` as a wire frame; fails with `PayloadTooLarge` exactly
/// when the payload is empty or longer than `MAX_PAYLOAD_LEN`.
pub fn build_frame(payload: &[u8]) -> (r: Result<Vec<u8>, SerialError>)
    ensures
        match r {
            Ok(frame) => encodable(payload@) && frame@ == frame_of(payload@),
            Err(e) => !encodable(payload@) && e == SerialError::PayloadTooLarge,
        },
{
    let payload_len = payload.len();
    if payload_len == 0 || payload_len > MAX_PAYLOAD_LEN {
        return Err(SerialError::PayloadTooLarge);
    }
    let mut frame: Vec<u8> = Vec::with_capacity(payload_len + 3);
    frame.push(SYNC_BYTE);
    frame.push((payload_len + 1) as u8);
    let mut i: usize = 0;
    while i < payload_len
        invariant
            payload_len == payload@.len(),
            i <= payload_len,
            frame@ == seq![SYNC_BYTE, (payload_len + 1) as u8] + payload@.subrange(0, i as int),
        decreases payload_len - i,
    {
        frame.push(payload[i]);
        i = i + 1;
        assert(frame@ == seq![SYNC_BYTE, (payload_len + 1) as u8] + payload@.subrange(0, i as int));
    }
    assert(payload@.subrange(0, payload_len as int) == payload@);
    frame.push(crc8(payload));
    Ok(frame)
}

/// Where the decoder stands within a frame.
#[derive(Debug, Clone, Copy, PartialEq, Eq, Structural)]
pub enum DecoderPhase {
    /// Skipping bytes until a sync byte arrives.
    Hunting,
    /// A sync byte arrived; the length byte comes next.
    AwaitingLength,
    /// Gathering the payload announced by the length byte, then its checksum.
    Collecting,
}

/// The abstract state of a `FrameDecoder`.
pub struct DecoderView {
    pub phase: DecoderPhase,
    /// The length byte of the frame being gathered (0 outside `Collecting`).
    pub len_field: u8,
    /// The payload bytes gathered so far.
    pub body: Seq<u8>,
}

/// What feeding one byte produced.
pub enum FrameOutcome {
    /// No verdict yet: more bytes are needed.
    Pending,
    /// A frame was completed and its checksum matched.
    Frame(Seq<u8>),
    /// A frame was completed but its checksum did not match.
    Mismatch,
}

/// The decoder state with no frame in progress.
pub open spec fn idle(phase: DecoderPhase) -> DecoderView {
    DecoderView { phase, len_field: 0, body: Seq::empty() }
}

/// The decoder's transition on byte `b`: the next state and the outcome.
pub open spec fn step(d: DecoderView, b: u8) -> (DecoderView, FrameOutcome) {
    match d.phase {
        DecoderPhase::Hunting => {
            if b == SYNC_BYTE {
                (idle(DecoderPhase::AwaitingLength), FrameOutcome::Pending)
            } else {
                (idle(DecoderPhase::Hunting), FrameOutcome::Pending)
            }
        },
        DecoderPhase::AwaitingLength => {
            if valid_len_field(b) {
                (
                    DecoderView { phase: DecoderPhase::Collecting, len_field: b, body: Seq::empty() },
                    FrameOutcome::Pending,
                )
            } else {
                (idle(DecoderPhase::Hunting), FrameOutcome::Pending)
            }
        },
        DecoderPhase::Collecting => {
            if d.body.len() + 1 < d.len_field {
                (DecoderView { body: d.body.push(b), ..d }, FrameOutcome::Pending)
            } else if b == crc8_spec(d.body) {
                (idle(DecoderPhase::Hunting), FrameOutcome::Frame(d.body))
            } else {
                (idle(DecoderPhase::Hunting), FrameOutcome::Mismatch)
            }
        },
    }
}

/// The first verdict the decoder reaches from state `d` on the bytes `s`,
/// or `Pending` if `s` runs out first.
pub open spec fn run(d: DecoderView, s: Seq<u8>) -> FrameOutcome
    decreases s.len(),
{
    if s.len() == 0 {
        FrameOutcome::Pending
    } else {
        let (next, outcome) = step(d, s[0]);
        match outcome {
            FrameOutcome::Pending => run(next, s.drop_first()),
            _ => outcome,
        }
    }
}

/// The first verdict reached on the byte stream `s` by a fresh decoder.
pub open spec fn decode_outcome(s: Seq<u8>) -> FrameOutcome {
    run(idle(DecoderPhase::Hunting), s)
}

/// The result a decode reports for `outcome`: the payload, `CrcMismatch`, or
/// `Timeout` when the bytes ran out before a verdict.
pub open spec fn reports(r: Result<Vec<u8>, SerialError>, outcome: FrameOutcome) -> bool {
    match outcome {
        FrameOutcome::Frame(p) => r matches Ok(v) && v@ == p,
        FrameOutcome::Mismatch => r matches Err(e) && e == SerialError::CrcMismatch,
        FrameOutcome::Pending => r matches Err(e) && e == SerialError::Timeout,
    }
}

/// The outcome of feeding one byte to a `FrameDecoder`.
#[derive(Debug)]
pub enum DecodeStep {
    Pending,
    Frame(Vec<u8>),
    Mismatch,
}

impl View for DecodeStep {
    type V = FrameOutcome;

    open spec fn view(&self) -> FrameOutcome {
        match self {
            DecodeStep::Pending => FrameOutcome::Pending,
            DecodeStep::Frame(p) => FrameOutcome::Frame(p@),
            DecodeStep::Mismatch => FrameOutcome::Mismatch,
        }
    }
}

/// Incremental frame decoder: fed the received bytes one at a time, it
/// skips noise, rejects implausible length bytes and reports each completed
/// frame.
#[derive(Debug)]
pub struct FrameDecoder {
    phase: DecoderPhase,
    len_field: u8,
    body: Vec<u8>,
}

impl View for FrameDecoder {
    type V = DecoderView;

    closed spec fn view(&self) -> DecoderView {
        DecoderView { phase: self.phase, len_field: self.len_field, body: self.body@ }
    }
}

impl FrameDecoder {
    /// A decoder hunting for a sync byte.
    pub fn new() -> (d: FrameDecoder)
        ensures
            d@ == idle(DecoderPhase::Hunting),
    {
        FrameDecoder { phase: DecoderPhase::Hunting, len_field: 0, body: Vec::new() }
    }

    /// Feeds one received byte.
    pub fn feed(&mut self, b: u8) -> (r: DecodeStep)
        ensures
            (final(self)@, r@) == step(old(self)@, b),
    {
        match self.phase {
            DecoderPhase::Hunting => {
                let phase = if b == SYNC_BYTE {
                    DecoderPhase::AwaitingLength
                } else {
                    DecoderPhase::Hunting
                };
                *self = FrameDecoder { phase, len_field: 0, body: Vec::new() };
                DecodeStep::Pending
            },
            DecoderPhase::AwaitingLength => {
                if 2 <= b && b as usize <= MAX_FRAME_LEN {
                    *self = FrameDecoder { phase: DecoderPhase::Collecting, len_field: b, body: Vec::new() };
                } else {
                    *self = FrameDecoder::new();
                }
                DecodeStep::Pending
            },
            DecoderPhase::Collecting => {
                let len = self.len_field as usize;
                if self.body.len() < len && self.body.len() + 1 < len {
                    self.body.push(b);
                    DecodeStep::Pending
                } else {
                    let mut body: Vec<u8> = Vec::new();
                    std::mem::swap(&mut body, &mut self.body);
                    self.phase = DecoderPhase::Hunting;
                    self.len_field = 0;
                    if crc8(body.as_slice()) == b {
                        DecodeStep::Frame(body)
                    } else {
                        DecodeStep::Mismatch
                    }
                }
            },
        }
    }
}

/// Decodes the first frame of `bytes`: the payload, `CrcMismatch`, or
/// `Timeout` when the bytes end before a frame is complete.
pub fn decode_frame(bytes: &[u8]) -> (r: Result<Vec<u8>, SerialError>)
    ensures
        reports(r, decode_outcome(bytes@)),
{
    let mut decoder = FrameDecoder::new();
    let mut i: usize = 0;
    assert(bytes@.subrange(0, bytes@.len() as int) == bytes@);
    while i < bytes.len()
        invariant
            i <= bytes@.len(),
            run(decoder@, bytes@.subrange(i as int, bytes@.len() as int)) == decode_outcome(bytes@),
        decreases bytes.len() - i,
    {
        let ghost rest = bytes@.subrange(i as int, bytes@.len() as int);
        assert(rest.drop_first() == bytes@.subrange(i + 1, bytes@.len() as int));
        match decoder.feed(bytes[i]) {
            DecodeStep::Frame(payload) => return Ok(payload),
            DecodeStep::Mismatch => return Err(SerialError::CrcMismatch),
            DecodeStep::Pending => {},
        }
        i = i + 1;
    }
    Err(SerialError::Timeout)
}

/// From the middle of a payload, gathering its remaining bytes and then the
/// integrity byte `c` ends the frame: accepted exactly when `c` is its
/// checksum. Whatever follows is not read.
proof fn lemma_collect(p: Seq<u8>, k: int, c: u8, rest: Seq<u8>)
    requires
        encodable(p),
        0 <= k <= p.len(),
    ensures
        run(
            DecoderView {
                phase: DecoderPhase::Collecting,
                len_field: (p.len() + 1) as u8,
                body: p.subrange(0, k),
            },
            p.subrange(k, p.len() as int) + seq![c] + rest,
        ) == if c == crc8_spec(p) {
            FrameOutcome::Frame(p)
        } else {
            FrameOutcome::Mismatch
        },
    decreases p.len() - k,
{
    let s = p.subrange(k, p.len() as int) + seq![c] + rest;
    assert(s.len() > 0);
    if k < p.len() {
        assert(s[0] == p[k]);
        assert(s.drop_first() == p.subrange(k + 1, p.len() as int) + seq![c] + rest);
        assert(p.subrange(0, k).push(p[k]) == p.subrange(0, k + 1));
        lemma_collect(p, k + 1, c, rest);
    } else {
        assert(s[0] == c);
        assert(p.subrange(0, k) == p);
    }
}

/// A frame for `p` whose integrity byte is `c`, followed by anything, is
/// decoded to `p` exactly when `c` is the checksum of `p`.
proof fn lemma_frame_with_integrity(p: Seq<u8>, c: u8, rest: Seq<u8>)
    requires
        encodable(p),
    ensures
        decode_outcome(seq![SYNC_BYTE, (p.len() + 1) as u8] + p + seq![c] + rest)
            == if c == crc8_spec(p) {
            FrameOutcome::Frame(p)
        } else {
            FrameOutcome::Mismatch
        },
{
    let len = (p.len() + 1) as u8;
    let s = seq![SYNC_BYTE, len] + p + seq![c] + rest;
    let s1 = s.drop_first();
    let s2 = s1.drop_first();
    assert(s[0] == SYNC_BYTE);
    assert(s1[0] == len);
    assert(s2 == p.subrange(0, p.len() as int) + seq![c] + rest);
    assert(p.subrange(0, 0) == Seq::<u8>::empty());
    let collecting = DecoderView {
        phase: DecoderPhase::Collecting,
        len_field: len,
        body: Seq::empty(),
    };
    assert(valid_len_field(len));
    assert(run(idle(DecoderPhase::Hunting), s) == run(idle(DecoderPhase::AwaitingLength), s1));
    assert(run(idle(DecoderPhase::AwaitingLength), s1) == run(collecting, s2));
    lemma_collect(p, 0, c, rest);
}

/// Bytes that hold no sync byte leave a hunting decoder hunting, with no
/// verdict.
proof fn lemma_skip_noise(noise: Seq<u8>, s: Seq<u8>)
    requires
        forall|i: int| 0 <= i < noise.len() ==> noise[i] != SYNC_BYTE,
    ensures
        run(idle(DecoderPhase::Hunting), noise + s) == run(idle(DecoderPhase::Hunting), s),
    decreases noise.len(),
{
    if noise.len() > 0 {
        let t = noise + s;
        assert(t[0] == noise[0]);
        assert(t.drop_first() == noise.drop_first() + s);
        lemma_skip_noise(noise.drop_first(), s);
    } else {
        assert(noise + s == s);
    }
}

/// Round trip: decoding the frame of an encodable payload yields that
/// payload.
pub proof fn lemma_round_trip(payload: Seq<u8>)
    requires
        encodable(payload),
    ensures
        decode_outcome(frame_of(payload)) == FrameOutcome::Frame(payload),
{
    let e = Seq::<u8>::empty();
    assert(frame_of(payload) == frame_of(payload) + e);
    lemma_frame_with_integrity(payload, crc8_spec(payload), e);
}

/// Corruption: a frame whose integrity byte is replaced by any other value
/// is reported as a mismatch, never decoded to a payload.
pub proof fn lemma_corrupted_integrity(payload: Seq<u8>, c: u8)
    requires
        encodable(payload),
        c != crc8_spec(payload),
    ensures
        decode_outcome(frame_of(payload).update(payload.len() + 2int, c)) == FrameOutcome::Mismatch,
{
    let e = Seq::<u8>::empty();
    let bad = seq![SYNC_BYTE, (payload.len() + 1) as u8] + payload + seq![c];
    assert(frame_of(payload).update(payload.len() + 2int, c) == bad + e);
    lemma_frame_with_integrity(payload, c, e);
}

/// Resynchronisation: noise without a sync byte in front of a frame is
/// skipped, and the frame is decoded to its payload.
pub proof fn lemma_resync(noise: Seq<u8>, payload: Seq<u8>)
    requires
        encodable(payload),
        forall|i: int| 0 <= i < noise.len() ==> noise[i] != SYNC_BYTE,
    ensures
        decode_outcome(noise + frame_of(payload)) == FrameOutcome::Frame(payload),
{
    lemma_skip_noise(noise, frame_of(payload));
    lemma_round_trip(payload);
}

/// A stream that never carries a sync byte never completes a frame.
pub proof fn lemma_no_sync_no_verdict(s: Seq<u8>)
    requires
        forall|i: int| 0 <= i < s.len() ==> s[i] != SYNC_BYTE,
    ensures
        decode_outcome(s) == FrameOutcome::Pending,
{
    let e = Seq::<u8>::empty();
    assert(s + e == s);
    lemma_skip_noise(s, e);
}

} // verus!
