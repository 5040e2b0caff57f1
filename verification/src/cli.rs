//! The headless recorder's arguments, what they configure, and its progress line.
use vstd::prelude::*;

use crate::clock::unix_secs;
use crate::config::{quality_box, quality_fps, AudioConfig, CaptureTarget, Quality, RecordConfig, TargetView};
use crate::hardware::{encoder_label, HardwareInfo};
use crate::platform::CaptureDisplay;
use crate::stats::SessionStats;
use crate::text::{decimal, push_char, push_decimal, push_str, texts_view, to_owned_string};

verus! {

/// Parsed command line.
#[derive(Debug, Clone, PartialEq, Eq)]
pub struct Cli {
    pub command: Command,
}

/// The headless recorder's subcommands.
#[derive(Debug, Clone, PartialEq, Eq)]
pub enum Command {
    /// List displays, GPU names, and the encoder preference.
    Probe,
    /// List capturable windows.
    Windows,
    /// Record the screen or a window to an MP4 file.
    Record(RecordArgs),
}

/// Arguments of `record`.
#[derive(Debug, Clone, PartialEq, Eq)]
pub struct RecordArgs {
    /// Output MP4 path. Default: a stamped name in the working directory.
    pub output: Option<String>,
    /// One-based display index. Default: primary display.
    pub display: Option<usize>,
    /// Capture a window whose title contains this text.
    pub window: Option<String>,
    /// Record the foreground window.
    pub foreground: bool,
    pub quality: QualityArg,
    /// Remux the finished MP4 to this RTSP/RTMP URL.
    pub stream_url: Option<String>,
    /// Stop after this many seconds. Omit to wait for Ctrl+C.
    pub duration: Option<u64>,
    /// Hide the mouse cursor in the recording.
    pub no_cursor: bool,
    /// Do not capture system (loopback) audio.
    pub no_system_audio: bool,
    /// Do not capture the microphone.
    pub no_mic: bool,
}

/// Quality preset as named on the command line.
#[derive(Debug, Clone, Copy, PartialEq, Eq, Structural)]
pub enum QualityArg {
    P720p24,
    P720p30,
    P1080p30,
    P1080p60,
}

/// The engine preset for a command-line quality.
pub open spec fn quality_arg_spec(q: QualityArg) -> Quality {
    match q {
        QualityArg::P720p24 => Quality::P720p24,
        QualityArg::P720p30 => Quality::P720p30,
        QualityArg::P1080p30 => Quality::P1080p30,
        QualityArg::P1080p60 => Quality::P1080p60,
    }
}

impl From<QualityArg> for Quality {
    fn from(value: QualityArg) -> (r: Quality) {
        match value {
            QualityArg::P720p24 => Quality::P720p24,
            QualityArg::P720p30 => Quality::P720p30,
            QualityArg::P1080p30 => Quality::P1080p30,
            QualityArg::P1080p60 => Quality::P1080p60,
        }
    }
}

impl vstd::std_specs::convert::FromSpecImpl<QualityArg> for Quality {
    open spec fn obeys_from_spec() -> bool {
        true
    }

    open spec fn from_spec(v: QualityArg) -> Quality {
        quality_arg_spec(v)
    }
}

/// The target the arguments pick: the foreground window wins, then a window title, then a
/// display index, then the primary display.
pub open spec fn args_target_spec(a: RecordArgs) -> TargetView {
    if a.foreground {
        TargetView::ForegroundWindow
    } else if a.window is Some {
        TargetView::WindowTitle(a.window->0@)
    } else if a.display is Some {
        TargetView::DisplayIndex(a.display->0)
    } else {
        TargetView::PrimaryDisplay
    }
}

impl RecordArgs {
    /// The capture target these arguments pick.
    pub fn target(&self) -> (r: CaptureTarget)
        ensures
            r@ == args_target_spec(*self),
    {
        if self.foreground {
            CaptureTarget::ForegroundWindow
        } else if let Some(title) = &self.window {
            CaptureTarget::WindowTitle(to_owned_string(title.as_str()))
        } else if let Some(index) = self.display {
            CaptureTarget::DisplayIndex(index)
        } else {
            CaptureTarget::PrimaryDisplay
        }
    }

    /// The session these arguments describe, writing to `output`.
    pub fn record_config(&self, output: String) -> (r: RecordConfig)
        ensures
            r.target@ == args_target_spec(*self),
            r.quality == quality_arg_spec(self.quality),
            r.output@ == output@,
            r.include_cursor == !self.no_cursor,
            r.audio.system == !self.no_system_audio,
            r.audio.microphone == !self.no_mic,
    {
        let mut config = RecordConfig::new(output);
        config.target = self.target();
        config.quality = Quality::from(self.quality);
        config.include_cursor = !self.no_cursor;
        config.audio = AudioConfig { system: !self.no_system_audio, microphone: !self.no_mic };
        config
    }

    /// The output path: the one given, or `./lightcapture-<unix-time>.mp4` (seconds since the
    /// Unix epoch, read from the clock).
    pub fn output_or_default(&self) -> (r: String)
        ensures
            self.output is Some ==> r@ == self.output->0@,
            self.output is None ==> exists|secs: u64|
                r@ == "./lightcapture-"@ + decimal(secs as nat) + ".mp4"@,
    {
        match &self.output {
            Some(path) => to_owned_string(path.as_str()),
            None => {
                let secs = unix_secs();
                let mut path = to_owned_string("./lightcapture-");
                push_decimal(&mut path, secs);
                push_str(&mut path, ".mp4");
                assert(path@ == "./lightcapture-"@ + decimal(secs as nat) + ".mp4"@);
                path
            },
        }
    }
}

/// Whether the recording loop ends: on Ctrl+C, when the duration limit has passed (elapsed
/// in nanoseconds), or when the session failed.
pub open spec fn should_stop_spec(running: bool, elapsed_nanos: int, limit_secs: Option<u64>, failed: bool) -> bool {
    !running || (limit_secs is Some && elapsed_nanos >= limit_secs->0 * 1_000_000_000) || failed
}

/// Whether the recording loop ends.
pub fn should_stop(running: bool, elapsed_nanos: u64, limit_secs: Option<u64>, failed: bool) -> (r: bool)
    ensures
        r == should_stop_spec(running, elapsed_nanos as int, limit_secs, failed),
{
    if !running {
        return true;
    }
    let over = match limit_secs {
        Some(secs) => match secs.checked_mul(1_000_000_000) {
            Some(limit) => elapsed_nanos >= limit,
            None => false,
        },
        None => false,
    };
    over || failed
}

/// `n` right-aligned in three columns (`{:>3}`).
pub open spec fn right3(n: nat) -> Seq<char> {
    let d = decimal(n);
    if d.len() >= 3 {
        d
    } else {
        Seq::new((3 - d.len()) as nat, |i: int| ' ') + d
    }
}

/// The live progress line the recorder rewrites in place.
pub open spec fn progress_spec(s: SessionStats) -> Seq<char> {
    "\r"@ + right3(s.elapsed_secs as nat) + "s  "@ + decimal(s.width as nat) + "x"@ + decimal(
        s.height as nat,
    ) + "  "@ + encoder_label(s.encoder) + "  "@ + decimal(s.fps_target as nat) + "fps  encoded "@
        + decimal(s.frames_encoded as nat) + "  dropped "@ + decimal(s.frames_dropped as nat)
        + "  captured "@ + decimal(s.frames_captured as nat)
}

proof fn lemma_decimal_nonempty(n: nat)
    ensures
        decimal(n).len() >= 1,
        n < 10 ==> decimal(n).len() == 1,
        10 <= n < 100 ==> decimal(n).len() == 2,
        n >= 100 ==> decimal(n).len() >= 3,
    decreases n,
{
    if n >= 10 {
        lemma_decimal_nonempty(n / 10);
    }
}

/// The live progress line for a snapshot.
pub fn progress_line(s: &SessionStats) -> (r: String)
    ensures
        r@ == progress_spec(*s),
{
    let mut out = to_owned_string("\r");
    proof {
        lemma_decimal_nonempty(s.elapsed_secs as nat);
    }
    if s.elapsed_secs < 10 {
        push_str(&mut out, "  ");
    } else if s.elapsed_secs < 100 {
        push_str(&mut out, " ");
    }
    push_decimal(&mut out, s.elapsed_secs);
    proof {
        let d = decimal(s.elapsed_secs as nat);
        reveal_strlit("  ");
        reveal_strlit(" ");
        if s.elapsed_secs < 10 {
            assert(Seq::new((3 - d.len()) as nat, |i: int| ' ') =~= "  "@);
        } else if s.elapsed_secs < 100 {
            assert(Seq::new((3 - d.len()) as nat, |i: int| ' ') =~= " "@);
        }
    }
    push_str(&mut out, "s  ");
    push_decimal(&mut out, s.width as u64);
    push_str(&mut out, "x");
    push_decimal(&mut out, s.height as u64);
    push_str(&mut out, "  ");
    push_str(&mut out, s.encoder.as_str());
    push_str(&mut out, "  ");
    push_decimal(&mut out, s.fps_target as u64);
    push_str(&mut out, "fps  encoded ");
    push_decimal(&mut out, s.frames_encoded);
    push_str(&mut out, "  dropped ");
    push_decimal(&mut out, s.frames_dropped);
    push_str(&mut out, "  captured ");
    push_decimal(&mut out, s.frames_captured);
    assert(out@ =~= progress_spec(*s));
    out
}

/// Each text with a list bullet in front.
pub open spec fn bulleted(items: Seq<Seq<char>>) -> Seq<Seq<char>> {
    items.map_values(|t: Seq<char>| "  - "@ + t)
}

/// The line listing one display with its index and id.
pub open spec fn index_line(d: CaptureDisplay) -> Seq<char> {
    "  ["@ + decimal(d.index as nat) + "] "@ + d.name@ + " ("@ + d.device_id@ + ") ("@ + decimal(
        d.width as nat,
    ) + "x"@ + decimal(d.height as nat) + ")"@
}

/// The probe report: version, chosen encoder, GPUs, displays, and (when any are listed) the
/// display indexes to record from.
pub open spec fn probe_lines_spec(version: Seq<char>, info: HardwareInfo, listed: Seq<CaptureDisplay>) -> Seq<Seq<char>> {
    let names = texts_view(info.encoder_names@);
    let displays = texts_view(info.displays@);
    seq!["LightCapture "@ + version, "Selected encoder: "@ + encoder_label(info.selected)] + (if names.len()
        == 0 {
        seq!["GPUs: (none reported)"@]
    } else {
        seq!["GPUs:"@] + bulleted(names)
    }) + seq!["Displays:"@] + (if displays.len() == 0 {
        seq!["  (none)"@]
    } else {
        bulleted(displays)
    }) + (if listed.len() == 0 {
        Seq::empty()
    } else {
        seq!["Display indexes:"@] + listed.map_values(|d: CaptureDisplay| index_line(d))
    })
}

fn push_line(out: &mut Vec<String>, s: String)
    ensures
        texts_view(final(out)@) == texts_view(old(out)@).push(s@),
{
    out.push(s);
    assert(texts_view(out@) =~= texts_view(old(out)@).push(s@));
}

fn push_bulleted(out: &mut Vec<String>, items: &Vec<String>)
    ensures
        texts_view(final(out)@) == texts_view(old(out)@) + bulleted(texts_view(items@)),
{
    let mut i: usize = 0;
    while i < items.len()
        invariant
            0 <= i <= items@.len(),
            texts_view(out@) == texts_view(old(out)@) + bulleted(texts_view(items@.subrange(0, i as int))),
        decreases items@.len() - i,
    {
        let mut line = to_owned_string("  - ");
        push_str(&mut line, items[i].as_str());
        let ghost before = texts_view(out@);
        push_line(out, line);
        i = i + 1;
        assert(bulleted(texts_view(items@.subrange(0, i as int))) =~= bulleted(
            texts_view(items@.subrange(0, i - 1)),
        ).push("  - "@ + items@[i - 1]@));
        assert(texts_view(out@) =~= texts_view(old(out)@) + bulleted(texts_view(items@.subrange(0, i as int))));
    }
    assert(items@.subrange(0, items@.len() as int) =~= items@);
}

fn index_line_of(d: &CaptureDisplay) -> (r: String)
    ensures
        r@ == index_line(*d),
{
    let mut s = to_owned_string("  [");
    push_decimal(&mut s, d.index as u64);
    push_str(&mut s, "] ");
    push_str(&mut s, d.name.as_str());
    push_str(&mut s, " (");
    push_str(&mut s, d.device_id.as_str());
    push_str(&mut s, ") (");
    push_decimal(&mut s, d.width as u64);
    push_str(&mut s, "x");
    push_decimal(&mut s, d.height as u64);
    push_str(&mut s, ")");
    assert(s@ =~= index_line(*d));
    s
}

/// The lines `probe` prints.
pub fn probe_lines(version: &str, info: &HardwareInfo, listed: &[CaptureDisplay]) -> (r: Vec<String>)
    ensures
        texts_view(r@) == probe_lines_spec(version@, *info, listed@),
{
    let mut out: Vec<String> = Vec::new();
    let mut first = to_owned_string("LightCapture ");
    push_str(&mut first, version);
    push_line(&mut out, first);
    let mut second = to_owned_string("Selected encoder: ");
    push_str(&mut second, info.selected.as_str());
    push_line(&mut out, second);
    let ghost head = texts_view(out@);
    if info.encoder_names.len() == 0 {
        push_line(&mut out, to_owned_string("GPUs: (none reported)"));
    } else {
        push_line(&mut out, to_owned_string("GPUs:"));
        push_bulleted(&mut out, &info.encoder_names);
    }
    let ghost gpus = texts_view(out@);
    push_line(&mut out, to_owned_string("Displays:"));
    if info.displays.len() == 0 {
        push_line(&mut out, to_owned_string("  (none)"));
    } else {
        push_bulleted(&mut out, &info.displays);
    }
    let ghost shown = texts_view(out@);
    if listed.len() > 0 {
        push_line(&mut out, to_owned_string("Display indexes:"));
        let ghost top = texts_view(out@);
        let mut i: usize = 0;
        while i < listed.len()
            invariant
                0 <= i <= listed@.len(),
                texts_view(out@) == top + listed@.subrange(0, i as int).map_values(
                    |d: CaptureDisplay| index_line(d),
                ),
            decreases listed@.len() - i,
        {
            let line = index_line_of(&listed[i]);
            push_line(&mut out, line);
            i = i + 1;
            assert(listed@.subrange(0, i as int).map_values(|d: CaptureDisplay| index_line(d))
                =~= listed@.subrange(0, i - 1).map_values(|d: CaptureDisplay| index_line(d)).push(
                index_line(listed@[i - 1]),
            ));
        }
        assert(listed@.subrange(0, listed@.len() as int) =~= listed@);
    }
    proof {
        let names = texts_view(info.encoder_names@);
        assert(names.len() == info.encoder_names@.len());
        assert(texts_view(info.displays@).len() == info.displays@.len());
        assert(texts_view(out@) =~= probe_lines_spec(version@, *info, listed@));
    }
    out
}

/// The frame rate a command-line quality names: the number after its `p`.
pub open spec fn arg_fps(q: QualityArg) -> u32 {
    match q {
        QualityArg::P720p24 => 24,
        QualityArg::P720p30 | QualityArg::P1080p30 => 30,
        QualityArg::P1080p60 => 60,
    }
}

/// The picture height a command-line quality names: the number before its `p`.
pub open spec fn arg_height(q: QualityArg) -> u32 {
    match q {
        QualityArg::P720p24 | QualityArg::P720p30 => 720,
        QualityArg::P1080p30 | QualityArg::P1080p60 => 1080,
    }
}

/// A command-line quality becomes the engine preset it names: the preset records at the named
/// frame rate inside a 16:9 box of the named height.
pub proof fn lemma_quality_arg_names_preset(q: QualityArg)
    ensures
        quality_fps(quality_arg_spec(q)) == arg_fps(q),
        quality_box(quality_arg_spec(q)).1 == arg_height(q),
        quality_box(quality_arg_spec(q)).0 * 9 == quality_box(quality_arg_spec(q)).1 * 16,
{
}

} // verus!
