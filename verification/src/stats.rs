//! Live session counters for the UI and CLI.
//!
//! Instants are nanoseconds on one monotonic clock, as plain `u64`s.
use vstd::prelude::*;

use crate::adaptive::sat_sub_u64;
use crate::frame_gate::NANOS_PER_SECOND;
use crate::hardware::EncoderKind;
use crate::text::opt_text_view;

verus! {

/// Live counters for the UI and CLI. Cheap to snapshot; no frame buffers.
#[derive(Debug, Clone, PartialEq, Eq)]
pub struct SessionStats {
    pub frames_captured: u64,
    pub frames_encoded: u64,
    pub frames_dropped: u64,
    pub width: u32,
    pub height: u32,
    pub fps_target: u32,
    pub elapsed_secs: u64,
    pub audio_frames_sent: u64,
    pub audio_drops: u64,
    pub encoder: EncoderKind,
    pub failure: Option<String>,
}

/// The counters a running session updates.
pub struct StatsInner {
    pub frames_captured: u64,
    pub frames_encoded: u64,
    pub frames_dropped: u64,
    pub width: u32,
    pub height: u32,
    pub fps_target: u32,
    pub audio_frames_sent: u64,
    pub audio_drops: u64,
    pub encoder: EncoderKind,
    pub failed: bool,
    pub failure: Option<String>,
    /// When the session started.
    pub started: u64,
}

impl StatsInner {
    /// Zeroed counters for a session that starts at `now`.
    pub fn new(fps_target: u32, encoder: EncoderKind, now: u64) -> (r: Self)
        ensures
            r.frames_captured == 0 && r.frames_encoded == 0 && r.frames_dropped == 0,
            r.width == 0 && r.height == 0,
            r.fps_target == fps_target,
            r.audio_frames_sent == 0 && r.audio_drops == 0,
            r.encoder == encoder,
            !r.failed,
            r.failure is None,
            r.started == now,
    {
        StatsInner {
            frames_captured: 0,
            frames_encoded: 0,
            frames_dropped: 0,
            width: 0,
            height: 0,
            fps_target,
            audio_frames_sent: 0,
            audio_drops: 0,
            encoder,
            failed: false,
            failure: None,
            started: now,
        }
    }

    /// Records a failure. The first message is kept; later ones only keep the flag set.
    pub fn note_failure(&mut self, message: String)
        ensures
            final(self).failed,
            opt_text_view(final(self).failure) == match old(self).failure {
                Some(m) => Some(m@),
                None => Some(message@),
            },
            final(self).frames_captured == old(self).frames_captured,
            final(self).frames_encoded == old(self).frames_encoded,
            final(self).frames_dropped == old(self).frames_dropped,
            final(self).width == old(self).width,
            final(self).height == old(self).height,
            final(self).fps_target == old(self).fps_target,
            final(self).audio_frames_sent == old(self).audio_frames_sent,
            final(self).audio_drops == old(self).audio_drops,
            final(self).encoder == old(self).encoder,
            final(self).started == old(self).started,
    {
        if self.failure.is_none() {
            self.failure = Some(message);
        }
        self.failed = true;
    }

    /// Whether a failure has been recorded.
    pub fn has_failed(&self) -> (r: bool)
        ensures
            r == self.failed,
    {
        self.failed
    }

    /// The counters as they stand at `now`.
    pub fn snapshot(&self, now: u64) -> (r: SessionStats)
        ensures
            r.frames_captured == self.frames_captured,
            r.frames_encoded == self.frames_encoded,
            r.frames_dropped == self.frames_dropped,
            r.width == self.width,
            r.height == self.height,
            r.fps_target == self.fps_target,
            r.elapsed_secs == sat_sub_u64(now as int, self.started as int) / NANOS_PER_SECOND as int,
            r.audio_frames_sent == self.audio_frames_sent,
            r.audio_drops == self.audio_drops,
            r.encoder == self.encoder,
            opt_text_view(r.failure) == opt_text_view(self.failure),
    {
        let failure = match &self.failure {
            Some(m) => Some(m.clone()),
            None => None,
        };
        SessionStats {
            frames_captured: self.frames_captured,
            frames_encoded: self.frames_encoded,
            frames_dropped: self.frames_dropped,
            width: self.width,
            height: self.height,
            fps_target: self.fps_target,
            elapsed_secs: now.saturating_sub(self.started) / NANOS_PER_SECOND,
            audio_frames_sent: self.audio_frames_sent,
            audio_drops: self.audio_drops,
            encoder: self.encoder,
            failure,
        }
    }
}

} // verus!
