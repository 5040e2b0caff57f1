//! Decisions of the capture backend, apart from the capture API itself: what a probe
//! reports, which windows and monitors qualify, how a session is sized and paced, and what
//! happens to each arriving frame.
use vstd::prelude::*;

use crate::config::{
    bitrate_spec, default_bitrate_bps, encode_size_spec, even_dimension, even_spec, quality_fps,
    CaptureTarget, RecordConfig,
};
use crate::error::Error;
use crate::frame_gate::FrameGate;
use crate::hardware::{pick_encoder, pick_spec, EncoderKind, HardwareInfo};
use crate::platform::{CaptureDisplay, CaptureWindow};
use crate::audio::queue::{wrap_inc, wrap_inc_u64};
use crate::stats::StatsInner;
use crate::text::{decimal, push_decimal, push_str, str_eq, to_owned_string, trim, trim_str};

verus! {

/// How a probe lists a display: `{name} ({width}x{height})`.
pub open spec fn display_summary_spec(d: CaptureDisplay) -> Seq<char> {
    d.name@ + " ("@ + decimal(d.width as nat) + "x"@ + decimal(d.height as nat) + ")"@
}

/// How a probe lists a display.
pub fn display_summary(d: &CaptureDisplay) -> (r: String)
    ensures
        r@ == display_summary_spec(*d),
{
    let mut s = to_owned_string(d.name.as_str());
    push_str(&mut s, " (");
    push_decimal(&mut s, d.width as u64);
    push_str(&mut s, "x");
    push_decimal(&mut s, d.height as u64);
    push_str(&mut s, ")");
    assert(s@ =~= display_summary_spec(*d));
    s
}

/// The GPU names a probe keeps: non-empty ones, each once, in first-seen order.
pub open spec fn distinct_names(names: Seq<Seq<char>>) -> Seq<Seq<char>>
    decreases names.len(),
{
    if names.len() == 0 {
        Seq::empty()
    } else {
        let rest = distinct_names(names.drop_last());
        let last = names.last();
        if last.len() == 0 || rest.contains(last) {
            rest
        } else {
            rest.push(last)
        }
    }
}

/// The texts of a list of strings.
pub open spec fn texts(v: Seq<String>) -> Seq<Seq<char>> {
    v.map_values(|s: String| s@)
}

fn contains_text(v: &Vec<String>, s: &str) -> (r: bool)
    ensures
        r == texts(v@).contains(s@),
{
    let mut i: usize = 0;
    while i < v.len()
        invariant
            0 <= i <= v@.len(),
            forall|j: int| 0 <= j < i ==> v@[j]@ != s@,
        decreases v@.len() - i,
    {
        if str_eq(v[i].as_str(), s) {
            assert(texts(v@)[i as int] == s@);
            return true;
        }
        i = i + 1;
    }
    assert forall|j: int| 0 <= j < texts(v@).len() implies texts(v@)[j] != s@ by {
        assert(texts(v@)[j] == v@[j]@);
    }
    false
}

/// What a probe reports from the displays and GPU names it found: each display summarized,
/// the distinct GPU names, and the preferred encoder among them (software with none).
pub fn hardware_info_from(displays: &[CaptureDisplay], gpu_names: &[String]) -> (r: HardwareInfo)
    ensures
        texts(r.displays@) == displays@.map_values(|d: CaptureDisplay| display_summary_spec(d)),
        texts(r.encoder_names@) == distinct_names(texts(gpu_names@)),
        r.selected == pick_spec(r.encoder_names@),
{
    let mut summaries: Vec<String> = Vec::new();
    let mut i: usize = 0;
    while i < displays.len()
        invariant
            0 <= i <= displays@.len(),
            texts(summaries@) == displays@.subrange(0, i as int).map_values(
                |d: CaptureDisplay| display_summary_spec(d),
            ),
        decreases displays@.len() - i,
    {
        let s = display_summary(&displays[i]);
        let ghost before = texts(summaries@);
        summaries.push(s);
        assert(texts(summaries@) =~= before.push(s@));
        assert(displays@.subrange(0, i + 1).map_values(|d: CaptureDisplay| display_summary_spec(d))
            =~= displays@.subrange(0, i as int).map_values(
            |d: CaptureDisplay| display_summary_spec(d),
        ).push(display_summary_spec(displays@[i as int])));
        i = i + 1;
    }
    assert(displays@.subrange(0, displays@.len() as int) =~= displays@);
    let mut names: Vec<String> = Vec::new();
    let mut j: usize = 0;
    while j < gpu_names.len()
        invariant
            0 <= j <= gpu_names@.len(),
            texts(names@) == distinct_names(texts(gpu_names@.subrange(0, j as int))),
        decreases gpu_names@.len() - j,
    {
        let ghost before = texts(names@);
        let g = gpu_names[j].as_str();
        proof {
            let pre = texts(gpu_names@.subrange(0, j + 1));
            assert(pre.drop_last() =~= texts(gpu_names@.subrange(0, j as int)));
            assert(pre.last() == g@);
        }
        if g.unicode_len() > 0 && !contains_text(&names, g) {
            names.push(to_owned_string(g));
            assert(texts(names@) =~= before.push(g@));
        }
        j = j + 1;
    }
    assert(gpu_names@.subrange(0, gpu_names@.len() as int) =~= gpu_names@);
    let selected = pick_encoder(names.as_slice());
    HardwareInfo { displays: summaries, encoder_names: names, selected }
}

/// A window the picker lists: a valid window with a title that is not blank, its size with
/// negative extents read as zero.
pub fn window_entry(valid: bool, title: Option<String>, width: i32, height: i32) -> (r: Option<CaptureWindow>)
    ensures
        r is Some <==> valid && title is Some && trim(title->0@).len() > 0,
        r matches Some(w) ==> w.title@ == title->0@ && w.width == (if width > 0 {
            width as int
        } else {
            0
        }) && w.height == (if height > 0 {
            height as int
        } else {
            0
        }),
{
    if !valid {
        return None;
    }
    match title {
        None => None,
        Some(t) => {
            if trim_str(t.as_str()).unicode_len() == 0 {
                return None;
            }
            let w: u32 = if width > 0 {
                width as u32
            } else {
                0
            };
            let h: u32 = if height > 0 {
                height as u32
            } else {
                0
            };
            Some(CaptureWindow { title: t, width: w, height: h })
        },
    }
}

/// An even dimension from a window extent, negative extents read as zero.
pub fn window_dimension(v: i32) -> (r: u32)
    ensures
        r == even_spec(if v > 0 {
            v as int
        } else {
            0
        }),
{
    let u: u32 = if v > 0 {
        v as u32
    } else {
        0
    };
    even_dimension(u)
}

/// The message for a zero display index.
pub open spec fn one_based_message() -> Seq<char> {
    "display index is one-based (1 is the first monitor)"@
}

/// Refuses a display index of zero; every other target can be attempted.
pub fn check_target(target: &CaptureTarget) -> (r: Result<(), Error>)
    ensures
        match target {
            CaptureTarget::DisplayIndex(i) if i < 1 => r is Err && r->Err_0 is InvalidTarget
                && r->Err_0->InvalidTarget_0@ == one_based_message(),
            _ => r is Ok,
        },
{
    match target {
        CaptureTarget::DisplayIndex(i) if *i < 1 => Err(
            Error::InvalidTarget(to_owned_string("display index is one-based (1 is the first monitor)")),
        ),
        _ => Ok(()),
    }
}

/// The text of an optional name.
pub open spec fn opt_text(o: Option<String>) -> Option<Seq<char>> {
    match o {
        Some(s) => Some(s@),
        None => None,
    }
}

/// Position of the first entry naming `id`, if any.
pub open spec fn first_naming(names: Seq<Option<String>>, id: Seq<char>) -> Option<int> {
    if exists|i: int| 0 <= i < names.len() && opt_text(#[trigger] names[i]) == Some(id) {
        Some(
            choose|k: int|
                0 <= k < names.len() && opt_text(#[trigger] names[k]) == Some(id) && forall|j: int|
                    0 <= j < k ==> opt_text(names[j]) != Some(id),
        )
    } else {
        None
    }
}

fn find_naming(names: &[Option<String>], id: &str) -> (r: Option<usize>)
    ensures
        match first_naming(names@, id@) {
            Some(k) => r is Some && r->0 as int == k,
            None => r is None,
        },
{
    let mut i: usize = 0;
    while i < names.len()
        invariant
            0 <= i <= names@.len(),
            forall|j: int| 0 <= j < i ==> opt_text(names@[j]) != Some(id@),
        decreases names@.len() - i,
    {
        let hit = match &names[i] {
            Some(n) => str_eq(n.as_str(), id),
            None => false,
        };
        if hit {
            proof {
                let d = names@;
                let k = choose|k: int|
                    0 <= k < d.len() && opt_text(#[trigger] d[k]) == Some(id@) && forall|j: int|
                        0 <= j < k ==> opt_text(d[j]) != Some(id@);
                assert(opt_text(d[i as int]) == Some(id@));
                if k < i {
                    assert(opt_text(d[k]) != Some(id@));
                }
                if (i as int) < k {
                    assert(opt_text(d[i as int]) != Some(id@));
                }
            }
            return Some(i);
        }
        i = i + 1;
    }
    None
}

/// The monitor a stored id names: the first whose device name is `id`, else the first whose
/// friendly name is `id`; otherwise the id is not found.
pub fn pick_monitor(device_names: &[Option<String>], names: &[Option<String>], id: &str) -> (r: Result<usize, Error>)
    ensures
        match first_naming(device_names@, id@) {
            Some(k) => r is Ok && r->Ok_0 as int == k,
            None => match first_naming(names@, id@) {
                Some(k) => r is Ok && r->Ok_0 as int == k,
                None => r is Err && r->Err_0 is TargetNotFound && r->Err_0->TargetNotFound_0@
                    == id@,
            },
        },
{
    if let Some(k) = find_naming(device_names, id) {
        return Ok(k);
    }
    if let Some(k) = find_naming(names, id) {
        return Ok(k);
    }
    Err(Error::TargetNotFound(to_owned_string(id)))
}

/// How a session runs: the encoder's size, rate and bitrate, and the capture pacing.
#[derive(Debug, Clone, Copy, PartialEq, Eq, Structural)]
pub struct SessionPlan {
    pub encode_width: u32,
    pub encode_height: u32,
    pub fps: u32,
    pub bitrate: u32,
    /// Shortest gap between two captured frames, in milliseconds.
    pub interval_ms: u64,
}

/// The message for a surface too small to encode.
pub open spec fn too_small_message() -> Seq<char> {
    "capture surface is smaller than 16x16"@
}

/// The plan for a `width` x `height` surface: refused below 16x16; otherwise the preset's
/// rate, the size that fits the preset, the bitrate for that size, and a 10 ms capture
/// interval with audio (one frame interval without).
pub fn plan_session(config: &RecordConfig, width: u32, height: u32) -> (r: Result<SessionPlan, Error>)
    ensures
        width < 16 || height < 16 ==> r is Err && r->Err_0 is InvalidTarget
            && r->Err_0->InvalidTarget_0@ == too_small_message(),
        width >= 16 && height >= 16 ==> r is Ok && ({
            let p = r->Ok_0;
            let fps = quality_fps(config.quality);
            let size = encode_size_spec(config.quality, width as int, height as int);
            &&& p.fps == fps
            &&& p.encode_width == size.0
            &&& p.encode_height == size.1
            &&& p.bitrate == bitrate_spec(size.0, size.1, fps as int)
            &&& p.interval_ms == if config.audio.system || config.audio.microphone {
                10int
            } else {
                1000int / (fps as int)
            }
        }),
{
    if width < 16 || height < 16 {
        return Err(Error::InvalidTarget(to_owned_string("capture surface is smaller than 16x16")));
    }
    let fps = config.quality.fps();
    let (w, h) = config.quality.encode_size(width, height);
    assert(w * h * fps <= 1920 * 1080 * 60) by (nonlinear_arith)
        requires
            w <= 1920,
            h <= 1080,
            fps <= 60,
    ;
    let interval_ms: u64 = if config.audio.is_enabled() {
        10
    } else {
        1000 / fps as u64
    };
    Ok(SessionPlan {
        encode_width: w,
        encode_height: h,
        fps,
        bitrate: default_bitrate_bps(w, h, fps),
        interval_ms,
    })
}

/// What the backend does with an arriving frame.
#[derive(Debug, Clone, Copy, PartialEq, Eq, Structural)]
pub enum FrameAction {
    /// Paused: the frame is counted as captured and nothing more.
    Skip,
    /// Refused by the frame gate.
    Drop,
    /// Scale it if needed and send it to the encoder.
    Encode,
}

/// Counts an arriving frame and decides its fate: skipped while paused, otherwise through the
/// frame gate, whose drop count the session stats then mirror.
pub fn admit_frame(gate: &mut FrameGate, stats: &mut StatsInner, paused: bool, now: u64) -> (r: FrameAction)
    requires
        old(gate).wf(),
        old(gate).dropped < u64::MAX,
    ensures
        final(gate).wf(),
        final(stats).frames_captured == wrap_inc(old(stats).frames_captured),
        paused ==> r == FrameAction::Skip && *final(gate) == *old(gate)
            && final(stats).frames_dropped == old(stats).frames_dropped,
        !paused && old(gate).rejects(now) ==> r == FrameAction::Drop && final(gate).dropped
            == old(gate).dropped + 1 && final(stats).frames_dropped == final(gate).dropped,
        !paused && !old(gate).rejects(now) ==> r == FrameAction::Encode && final(gate).in_flight
            == old(gate).in_flight + 1 && final(stats).frames_dropped == old(stats).frames_dropped,
        final(stats).frames_encoded == old(stats).frames_encoded,
        final(stats).failed == old(stats).failed,
        final(stats).started == old(stats).started,
{
    stats.frames_captured = wrap_inc_u64(stats.frames_captured);
    if paused {
        return FrameAction::Skip;
    }
    if !gate.try_accept(now) {
        stats.frames_dropped = gate.dropped();
        return FrameAction::Drop;
    }
    FrameAction::Encode
}

/// A display's id and name as the picker shows them: the device name or `display-N` for the
/// id; the friendly name, else the device name, else `Display N` for the name.
pub open spec fn display_names_spec(
    index: usize,
    device_name: Option<Seq<char>>,
    friendly: Option<Seq<char>>,
) -> (Seq<char>, Seq<char>) {
    let id = match device_name {
        Some(d) => d,
        None => "display-"@ + decimal(index as nat),
    };
    let name = match friendly {
        Some(f) => f,
        None => match device_name {
            Some(d) => d,
            None => "Display "@ + decimal(index as nat),
        },
    };
    (id, name)
}

/// A display's id and name from what the monitor reports.
pub fn display_names(index: usize, device_name: Option<String>, friendly: Option<String>) -> (r: (String, String))
    ensures
        (r.0@, r.1@) == display_names_spec(index, opt_text(device_name), opt_text(friendly)),
{
    let id = match &device_name {
        Some(d) => to_owned_string(d.as_str()),
        None => {
            let mut s = to_owned_string("display-");
            push_decimal(&mut s, index as u64);
            s
        },
    };
    let name = match friendly {
        Some(f) => f,
        None => match device_name {
            Some(d) => d,
            None => {
                let mut s = to_owned_string("Display ");
                push_decimal(&mut s, index as u64);
                s
            },
        },
    };
    (id, name)
}

/// Length of the recorded video in 100 ns units: last minus first timestamp, zero when the
/// clock ran backwards.
pub fn video_span_hns(first: i64, last: i64) -> (r: u64)
    ensures
        r == if last - first > 0 {
            if last - first > i64::MAX {
                i64::MAX as int
            } else {
                last - first
            }
        } else {
            0
        },
{
    let d: i64 = if last >= first {
        if first < 0 && last > i64::MAX + first {
            i64::MAX
        } else {
            last - first
        }
    } else {
        0
    };
    d as u64
}

/// Notes a frame's timestamp: the first one is kept, the last one follows.
pub fn note_timestamp(first: &mut Option<i64>, last: &mut Option<i64>, ts: i64)
    ensures
        *final(first) == match *old(first) {
            Some(f) => Some(f),
            None => Some(ts),
        },
        *final(last) == Some(ts),
{
    if first.is_none() {
        *first = Some(ts);
    }
    *last = Some(ts);
}

/// PCM frames in a chunk of interleaved stereo i16 bytes.
pub fn chunk_frames(len: usize) -> (r: u64)
    ensures
        r == len / 4,
{
    (len / 4) as u64
}

/// The sizes a GPU scaler was built for.
#[derive(Debug, Clone, Copy, PartialEq, Eq, Structural)]
pub struct ScaleDims {
    pub in_w: u32,
    pub in_h: u32,
    pub out_w: u32,
    pub out_h: u32,
}

impl ScaleDims {
    /// Whether a scaler built for these sizes can serve this input and output.
    pub fn matches(&self, in_w: u32, in_h: u32, out_w: u32, out_h: u32) -> (r: bool)
        ensures
            r == (self.in_w == in_w && self.in_h == in_h && self.out_w == out_w && self.out_h
                == out_h),
    {
        self.in_w == in_w && self.in_h == in_h && self.out_w == out_w && self.out_h == out_h
    }
}

/// What a frame of `frame_w` x `frame_h` needs before encoding at `enc_w` x `enc_h`.
#[derive(Debug, Clone, Copy, PartialEq, Eq, Structural)]
pub enum ScaleStep {
    /// The frame already has the encoder's size.
    AsIs,
    /// The current scaler fits: scale with it.
    Scale,
    /// Build a scaler for these sizes, then scale.
    Rebuild,
}

/// Whether a frame needs scaling, and whether the current scaler (if any) fits.
pub fn scale_step(scaler: Option<ScaleDims>, frame_w: u32, frame_h: u32, enc_w: u32, enc_h: u32) -> (r: ScaleStep)
    ensures
        frame_w == enc_w && frame_h == enc_h ==> r == ScaleStep::AsIs,
        !(frame_w == enc_w && frame_h == enc_h) ==> r == match scaler {
            Some(d) => if d == (ScaleDims { in_w: frame_w, in_h: frame_h, out_w: enc_w, out_h: enc_h }) {
                ScaleStep::Scale
            } else {
                ScaleStep::Rebuild
            },
            None => ScaleStep::Rebuild,
        },
{
    if frame_w == enc_w && frame_h == enc_h {
        return ScaleStep::AsIs;
    }
    match scaler {
        Some(d) => {
            if d.matches(frame_w, frame_h, enc_w, enc_h) {
                ScaleStep::Scale
            } else {
                ScaleStep::Rebuild
            }
        },
        None => ScaleStep::Rebuild,
    }
}

} // verus!
