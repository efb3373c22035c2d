//! The decisions of a deadline-bounded frame read. The caller owns the clock
//! and the device: before each blocking read it asks `check_deadline`, and it
//! hands every received byte to `on_byte` until that returns a result.

use vstd::prelude::*;
use crate::error::SerialError;
use crate::frame::{
    idle, reports, step, DecodeStep, DecoderPhase, DecoderView, FrameDecoder, FrameOutcome,
    decode_outcome,
};

verus! {

/// The time budget of a read when the port has no read time-out configured.
pub const FRAME_READ_TIMEOUT_MS: u64 = 100;

/// The time budget of a read on a port whose read time-out is `timeout_ms`.
pub open spec fn effective_timeout(timeout_ms: u64) -> u64 {
    if timeout_ms == 0 {
        FRAME_READ_TIMEOUT_MS
    } else {
        timeout_ms
    }
}

/// The deadline of a read started at `start_ms`: the start plus the time
/// budget, or the end of the clock's range if that comes first.
pub open spec fn deadline_after(start_ms: u64, timeout_ms: u64) -> u64 {
    if start_ms + effective_timeout(timeout_ms) <= u64::MAX {
        (start_ms + effective_timeout(timeout_ms)) as u64
    } else {
        u64::MAX
    }
}

/// A frame read in progress: the decoder and the fixed deadline.
#[derive(Debug)]
pub struct FrameReader {
    decoder: FrameDecoder,
    deadline_ms: u64,
}

impl FrameReader {
    /// The decoder state of the read.
    pub closed spec fn decoder_view(&self) -> DecoderView {
        self.decoder@
    }

    /// The deadline of the read, fixed when it started.
    pub closed spec fn deadline(&self) -> u64 {
        self.deadline_ms
    }

    /// Starts a read at time `now_ms` on a port whose read time-out is
    /// `timeout_ms` (0 meaning none configured).
    pub fn start(now_ms: u64, timeout_ms: u64) -> (r: FrameReader)
        ensures
            r.decoder_view() == idle(DecoderPhase::Hunting),
            r.deadline() == deadline_after(now_ms, timeout_ms),
    {
        let budget = if timeout_ms == 0 {
            FRAME_READ_TIMEOUT_MS
        } else {
            timeout_ms
        };
        let deadline_ms = if now_ms <= u64::MAX - budget {
            now_ms + budget
        } else {
            u64::MAX
        };
        FrameReader { decoder: FrameDecoder::new(), deadline_ms }
    }

    /// The deadline of the read.
    pub fn deadline_ms(&self) -> (r: u64)
        ensures
            r == self.deadline(),
    {
        self.deadline_ms
    }

    /// Asked before every blocking read: `Timeout` once `now_ms` has reached
    /// the deadline, and the read may go on before.
    pub fn check_deadline(&self, now_ms: u64) -> (r: Result<(), SerialError>)
        ensures
            r is Ok <==> now_ms < self.deadline(),
            r matches Err(e) ==> e == SerialError::Timeout,
    {
        if now_ms < self.deadline_ms {
            Ok(())
        } else {
            Err(SerialError::Timeout)
        }
    }

    /// Hands over one received byte: `None` while no verdict is reached,
    /// else the payload of the completed frame or `CrcMismatch`.
    pub fn on_byte(&mut self, b: u8) -> (r: Option<Result<Vec<u8>, SerialError>>)
        ensures
            final(self).deadline() == old(self).deadline(),
            final(self).decoder_view() == step(old(self).decoder_view(), b).0,
            match step(old(self).decoder_view(), b).1 {
                FrameOutcome::Pending => r is None,
                outcome => r matches Some(res) && reports(res, outcome),
            },
    {
        match self.decoder.feed(b) {
            DecodeStep::Pending => None,
            DecodeStep::Frame(payload) => Some(Ok(payload)),
            DecodeStep::Mismatch => Some(Err(SerialError::CrcMismatch)),
        }
    }
}

/// Time-out bound: a source that never sends a sync byte gives the reader no
/// verdict, whatever it delivers, and at any time from the start plus the
/// read's time budget on, the deadline has passed, so `check_deadline`
/// ends the read with `Timeout`.
pub proof fn lemma_silent_source_times_out(
    start_ms: u64,
    timeout_ms: u64,
    received: Seq<u8>,
    now_ms: u64,
)
    requires
        forall|i: int| 0 <= i < received.len() ==> received[i] != crate::frame::SYNC_BYTE,
        now_ms >= start_ms + effective_timeout(timeout_ms),
    ensures
        decode_outcome(received) == FrameOutcome::Pending,
        now_ms >= deadline_after(start_ms, timeout_ms),
        deadline_after(start_ms, timeout_ms) == start_ms + effective_timeout(timeout_ms),
{
    crate::frame::lemma_no_sync_no_verdict(received);
}

} // verus!
