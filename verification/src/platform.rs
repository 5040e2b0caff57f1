//! Capture devices and the recording handle.
use vstd::prelude::*;

use crate::config::RecordConfig;
use crate::error::Error;
use crate::hardware::{EncoderKind, HardwareInfo};
use crate::stats::{SessionStats, StatsInner};
use crate::text::opt_text_view;
use crate::adaptive::sat_sub_u64;
use crate::frame_gate::NANOS_PER_SECOND;

verus! {

/// A monitor the user can pick.
#[derive(Debug, Clone, PartialEq, Eq)]
pub struct CaptureDisplay {
    pub index: usize,
    pub name: String,
    pub device_id: String,
    pub width: u32,
    pub height: u32,
}

/// A window the user can pick.
#[derive(Debug, Clone, PartialEq, Eq)]
pub struct CaptureWindow {
    pub title: String,
    pub width: u32,
    pub height: u32,
}

/// An in-progress recording: where it writes, its counters, and whether it is paused.
pub struct Recording {
    pub output: String,
    pub stats: StatsInner,
    pub paused: bool,
}

impl Recording {
    /// The output file path.
    pub fn output(&self) -> (r: &str)
        ensures
            r@ == self.output@,
    {
        self.output.as_str()
    }

    /// The session counters at `now`.
    pub fn stats(&self, now: u64) -> (r: SessionStats)
        ensures
            r.frames_captured == self.stats.frames_captured,
            r.frames_encoded == self.stats.frames_encoded,
            r.frames_dropped == self.stats.frames_dropped,
            r.width == self.stats.width,
            r.height == self.stats.height,
            r.fps_target == self.stats.fps_target,
            r.elapsed_secs == sat_sub_u64(now as int, self.stats.started as int)
                / NANOS_PER_SECOND as int,
            r.audio_frames_sent == self.stats.audio_frames_sent,
            r.audio_drops == self.stats.audio_drops,
            r.encoder == self.stats.encoder,
            opt_text_view(r.failure) == opt_text_view(self.stats.failure),
    {
        self.stats.snapshot(now)
    }

    /// Pauses or resumes: video and audio freeze while paused.
    pub fn set_paused(&mut self, paused: bool)
        ensures
            final(self).paused == paused,
            final(self).output == old(self).output,
            final(self).stats == old(self).stats,
    {
        self.paused = paused;
    }

    /// Whether the recording is paused.
    pub fn is_paused(&self) -> (r: bool)
        ensures
            r == self.paused,
    {
        self.paused
    }

    /// Whether the session has recorded a failure.
    pub fn has_failed(&self) -> (r: bool)
        ensures
            r == self.stats.failed,
    {
        self.stats.has_failed()
    }

    /// Finishes the recording, given how finalizing the file went: that failure is returned as
    /// it is; a file with no encoded frame is refused; otherwise the output path.
    pub fn stop(self, finalized: Result<(), Error>) -> (r: Result<String, Error>)
        ensures
            match finalized {
                Err(e) => r == Err::<String, Error>(e),
                Ok(_) => if self.stats.frames_encoded == 0 {
                    r == Err::<String, Error>(Error::NoFrames)
                } else {
                    r is Ok && r->Ok_0@ == self.output@
                },
            },
    {
        match finalized {
            Err(e) => Err(e),
            Ok(()) => {
                if self.stats.frames_encoded == 0 {
                    Err(Error::NoFrames)
                } else {
                    Ok(self.output)
                }
            },
        }
    }
}

/// Probe displays and encoders. Without a capture backend on this platform: software.
pub fn probe() -> (r: Result<HardwareInfo, Error>)
    ensures
        r is Ok,
        r->Ok_0.displays@.len() == 0,
        r->Ok_0.encoder_names@.len() == 0,
        r->Ok_0.selected == EncoderKind::Software,
{
    Ok(HardwareInfo::software_fallback())
}

/// Monitors that can be captured. There is no capture backend on this platform.
pub fn list_displays() -> (r: Result<Vec<CaptureDisplay>, Error>)
    ensures
        r == Err::<Vec<CaptureDisplay>, Error>(Error::UnsupportedPlatform),
{
    Err(Error::UnsupportedPlatform)
}

/// Windows that can be captured. There is no capture backend on this platform.
pub fn list_windows() -> (r: Result<Vec<CaptureWindow>, Error>)
    ensures
        r == Err::<Vec<CaptureWindow>, Error>(Error::UnsupportedPlatform),
{
    Err(Error::UnsupportedPlatform)
}

/// Starts a recording. There is no capture backend on this platform.
pub fn start(config: RecordConfig) -> (r: Result<Recording, Error>)
    ensures
        r is Err && r->Err_0 == Error::UnsupportedPlatform,
{
    Err(Error::UnsupportedPlatform)
}

} // verus!
