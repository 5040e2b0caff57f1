//! What to record, at which preset, and where the file goes.
use vstd::prelude::*;

use crate::clock::{civil, stamp_of, stamp_spec, unix_secs};
use crate::text::{
    all_digits, char_is_ascii_alnum, decimal, decimal2, decimal4, has_prefix, has_suffix,
    is_ascii_alnum, is_digit, lemma_decimal_digits, push_char, push_decimal, push_str,
    to_owned_string, trim_matches_char, trim_matches_str,
};

verus! {

/// Where to capture from.
#[derive(Debug, Clone, PartialEq, Eq)]
pub enum CaptureTarget {
    PrimaryDisplay,
    /// One-based display index (`1` is the first monitor).
    DisplayIndex(usize),
    /// Stable monitor id (`\\.\DISPLAY1` or a DisplayConfig path).
    Display { id: String },
    /// Window whose title contains this substring.
    WindowTitle(String),
    ForegroundWindow,
}

/// A capture target with its texts as character sequences.
pub ghost enum TargetView {
    PrimaryDisplay,
    DisplayIndex(usize),
    Display(Seq<char>),
    WindowTitle(Seq<char>),
    ForegroundWindow,
}

impl View for CaptureTarget {
    type V = TargetView;

    open spec fn view(&self) -> TargetView {
        match *self {
            CaptureTarget::PrimaryDisplay => TargetView::PrimaryDisplay,
            CaptureTarget::DisplayIndex(i) => TargetView::DisplayIndex(i),
            CaptureTarget::Display { id } => TargetView::Display(id@),
            CaptureTarget::WindowTitle(t) => TargetView::WindowTitle(t@),
            CaptureTarget::ForegroundWindow => TargetView::ForegroundWindow,
        }
    }
}

/// The slug of a capture target, as a character sequence.
pub open spec fn target_slug(t: CaptureTarget) -> Seq<char> {
    match t {
        CaptureTarget::PrimaryDisplay => "primary"@,
        CaptureTarget::DisplayIndex(index) => "display"@ + decimal(index as nat),
        CaptureTarget::Display { id } => sanitize_spec(id@),
        CaptureTarget::WindowTitle(title) => sanitize_spec(title@),
        CaptureTarget::ForegroundWindow => "foreground"@,
    }
}

impl CaptureTarget {
    /// Filesystem-safe token used in default recording names.
    pub fn source_slug(&self) -> (r: String)
        ensures
            r@ == target_slug(*self),
    {
        match self {
            CaptureTarget::PrimaryDisplay => {
                proof {
                    reveal_strlit("primary");
                }
                to_owned_string("primary")
            },
            CaptureTarget::DisplayIndex(index) => {
                let mut s = to_owned_string("display");
                push_decimal(&mut s, *index as u64);
                s
            },
            CaptureTarget::Display { id } => sanitize_source_slug(id.as_str()),
            CaptureTarget::WindowTitle(title) => sanitize_source_slug(title.as_str()),
            CaptureTarget::ForegroundWindow => to_owned_string("foreground"),
        }
    }
}

/// Quality preset. Frames are scaled to fit the preset box; FPS is the preset's rate.
#[derive(Debug, Clone, Copy, PartialEq, Eq, Structural)]
pub enum Quality {
    /// Fit inside 1280x720 at 24 FPS. Never upscales.
    P720p24,
    /// Fit inside 1280x720 at 30 FPS. Never upscales.
    P720p30,
    /// Fit inside 1920x1080 at 30 FPS. Never upscales.
    P1080p30,
    /// Fit inside 1920x1080 at 60 FPS when the source can supply it. Never upscales.
    P1080p60,
}

/// Frame rate of a preset.
pub open spec fn quality_fps(q: Quality) -> u32 {
    match q {
        Quality::P720p24 => 24,
        Quality::P720p30 | Quality::P1080p30 => 30,
        Quality::P1080p60 => 60,
    }
}

/// Bounding box of a preset.
pub open spec fn quality_box(q: Quality) -> (u32, u32) {
    match q {
        Quality::P720p24 | Quality::P720p30 => (1280, 720),
        Quality::P1080p30 | Quality::P1080p60 => (1920, 1080),
    }
}

/// `value & !1`: the largest even number not above `value`.
pub open spec fn even_spec(v: int) -> int {
    v - v % 2
}

/// An even dimension with the encoder's floor of 16.
pub open spec fn even_at_least_16(v: int) -> int {
    if even_spec(v) >= 16 {
        even_spec(v)
    } else {
        16
    }
}

/// `u32::saturating_mul`.
pub open spec fn sat_mul_u32(a: int, b: int) -> int {
    if a * b > u32::MAX {
        u32::MAX as int
    } else {
        a * b
    }
}

/// The even size that fits a source of `src_w` x `src_h` into the box of `q`, keeping the
/// aspect ratio and never scaling up.
pub open spec fn encode_size_spec(q: Quality, src_w: int, src_h: int) -> (int, int) {
    let w = even_at_least_16(src_w);
    let h = even_at_least_16(src_h);
    let max_w = quality_box(q).0 as int;
    let max_h = quality_box(q).1 as int;
    if w <= max_w && h <= max_h {
        (w, h)
    } else {
        let h_from_w = sat_mul_u32(h, max_w) / w;
        if h_from_w <= max_h {
            (even_at_least_16(max_w), even_at_least_16(h_from_w))
        } else {
            let w_from_h = sat_mul_u32(w, max_h) / h;
            (even_at_least_16(w_from_h), even_at_least_16(max_h))
        }
    }
}

proof fn lemma_even_bounds(v: int)
    requires
        v >= 0,
    ensures
        0 <= even_spec(v) <= v,
        even_spec(v) % 2 == 0,
        v % 2 == 0 ==> even_spec(v) == v,
{
}

/// H.264 requires even width and height: clears the lowest bit.
pub fn even_dimension(value: u32) -> (r: u32)
    ensures
        r == even_spec(value as int),
{
    let r = value & !1u32;
    assert(value & !1u32 == value - value % 2) by (bit_vector);
    r
}

fn even_16(value: u32) -> (r: u32)
    ensures
        r == even_at_least_16(value as int),
{
    let e = even_dimension(value);
    if e >= 16 {
        e
    } else {
        16
    }
}

impl Quality {
    /// Frame rate of the preset.
    pub fn fps(self) -> (r: u32)
        ensures
            r == quality_fps(self),
    {
        match self {
            Quality::P720p24 => 24,
            Quality::P720p30 | Quality::P1080p30 => 30,
            Quality::P1080p60 => 60,
        }
    }

    /// Bounding box the encoder must not exceed.
    pub fn max_size(self) -> (r: (u32, u32))
        ensures
            r == quality_box(self),
    {
        match self {
            Quality::P720p24 | Quality::P720p30 => (1280, 720),
            Quality::P1080p30 | Quality::P1080p60 => (1920, 1080),
        }
    }

    /// Even H.264 size that fits in this preset. Source pixels are never upscaled.
    pub fn encode_size(self, src_w: u32, src_h: u32) -> (r: (u32, u32))
        ensures
            (r.0 as int, r.1 as int) == encode_size_spec(self, src_w as int, src_h as int),
            r.0 % 2 == 0 && r.1 % 2 == 0,
            r.0 >= 16 && r.1 >= 16,
            r.0 <= quality_box(self).0 && r.1 <= quality_box(self).1,
            r.0 <= even_at_least_16(src_w as int) && r.1 <= even_at_least_16(src_h as int),
    {
        let w = even_16(src_w);
        let h = even_16(src_h);
        let (max_w, max_h) = self.max_size();
        proof {
            lemma_even_bounds(src_w as int);
            lemma_even_bounds(src_h as int);
            lemma_even_bounds(max_w as int);
            lemma_even_bounds(max_h as int);
        }
        if w <= max_w && h <= max_h {
            return (w, h);
        }
        let h_from_w = saturating_mul_u32(h, max_w) / w;
        proof {
            lemma_even_bounds(h_from_w as int);
        }
        if h_from_w <= max_h {
            proof {
                lemma_fit_from_width(w as int, h as int, max_w as int, max_h as int);
            }
            (even_16(max_w), even_16(h_from_w))
        } else {
            let w_from_h = saturating_mul_u32(w, max_h) / h;
            proof {
                lemma_even_bounds(w_from_h as int);
                lemma_fit_from_height(w as int, h as int, max_w as int, max_h as int);
            }
            (even_16(w_from_h), even_16(max_h))
        }
    }
}

/// A size that fits the preset's box is kept as it is (aligned), never scaled up.
pub proof fn lemma_encode_size_keeps_fitting_size(q: Quality, src_w: u32, src_h: u32)
    requires
        even_at_least_16(src_w as int) <= quality_box(q).0,
        even_at_least_16(src_h as int) <= quality_box(q).1,
    ensures
        encode_size_spec(q, src_w as int, src_h as int) == (
            even_at_least_16(src_w as int),
            even_at_least_16(src_h as int),
        ),
{
}

/// A size that does not fit is scaled down keeping its aspect ratio: with `w` x `h` the aligned
/// source and `(rw, rh)` the result, `rw * h` and `rh * w` differ by less than two rows or
/// columns of the source (the rounding down to even sizes). Holds wherever the scaled sides
/// neither overflow nor fall below the encoder's floor of 16.
pub proof fn lemma_encode_size_keeps_aspect(q: Quality, src_w: u32, src_h: u32)
    requires
        !(even_at_least_16(src_w as int) <= quality_box(q).0 && even_at_least_16(src_h as int)
            <= quality_box(q).1),
        even_at_least_16(src_h as int) * quality_box(q).0 <= u32::MAX,
        even_at_least_16(src_w as int) * quality_box(q).1 <= u32::MAX,
        even_at_least_16(src_h as int) * quality_box(q).0 / even_at_least_16(src_w as int) >= 16,
        even_at_least_16(src_w as int) * quality_box(q).1 / even_at_least_16(src_h as int) >= 16,
    ensures
        ({
            let w = even_at_least_16(src_w as int);
            let h = even_at_least_16(src_h as int);
            let r = encode_size_spec(q, src_w as int, src_h as int);
            &&& r.0 * h < (r.1 + 2) * w
            &&& r.1 * w < (r.0 + 2) * h
        }),
{
    let w = even_at_least_16(src_w as int);
    let h = even_at_least_16(src_h as int);
    let mw = quality_box(q).0 as int;
    let mh = quality_box(q).1 as int;
    let r = encode_size_spec(q, src_w as int, src_h as int);
    assert(w >= 16 && h >= 16);
    assert(even_at_least_16(mw) == mw && even_at_least_16(mh) == mh);
    assert(sat_mul_u32(h, mw) == h * mw);
    assert(sat_mul_u32(w, mh) == w * mh);
    let qw = h * mw / w;
    let ph = w * mh / h;
    lemma_div_bounds(h * mw, w);
    lemma_div_bounds(w * mh, h);
    if qw <= mh {
        let e = even_at_least_16(qw);
        assert(r == (mw, e));
        assert(qw - 1 <= e <= qw);
        assert(mw * h < (e + 2) * w) by (nonlinear_arith)
            requires
                h * mw < (qw + 1) * w,
                qw + 1 <= e + 2,
                w > 0,
        ;
        assert(e * w < (mw + 2) * h) by (nonlinear_arith)
            requires
                qw * w <= h * mw,
                e <= qw,
                w > 0,
                h > 0,
        ;
    } else {
        let e = even_at_least_16(ph);
        assert(r == (e, mh));
        assert(ph - 1 <= e <= ph);
        assert(e * h < (mh + 2) * w) by (nonlinear_arith)
            requires
                ph * h <= w * mh,
                e <= ph,
                h > 0,
                w > 0,
        ;
        assert(mh * w < (e + 2) * h) by (nonlinear_arith)
            requires
                w * mh < (ph + 1) * h,
                ph + 1 <= e + 2,
                h > 0,
        ;
    }
}

/// Floor division brackets its dividend.
proof fn lemma_div_bounds(x: int, d: int)
    requires
        x >= 0,
        d > 0,
    ensures
        (x / d) * d <= x < (x / d + 1) * d,
{
    assert((x / d) * d <= x < (x / d + 1) * d) by (nonlinear_arith)
        requires
            x >= 0,
            d > 0,
    ;
}

/// `u32::saturating_mul`.
fn saturating_mul_u32(a: u32, b: u32) -> (r: u32)
    ensures
        r == sat_mul_u32(a as int, b as int),
{
    assert((a as u64) * (b as u64) <= u32::MAX * u32::MAX) by (nonlinear_arith)
        requires
            a <= u32::MAX,
            b <= u32::MAX,
    ;
    let p = (a as u64) * (b as u64);
    if p > u32::MAX as u64 {
        u32::MAX
    } else {
        p as u32
    }
}

proof fn lemma_fit_from_width(w: int, h: int, max_w: int, max_h: int)
    requires
        16 <= w <= u32::MAX,
        16 <= h <= u32::MAX,
        16 <= max_w <= 1920,
        16 <= max_h <= 1080,
        !(w <= max_w && h <= max_h),
        sat_mul_u32(h, max_w) / w <= max_h,
    ensures
        max_w < w,
        sat_mul_u32(h, max_w) / w <= h,
{
    if w <= max_w {
        assert(h > max_h);
        if h * max_w > u32::MAX {
            assert((u32::MAX as int) / w >= (u32::MAX as int) / 1920) by (nonlinear_arith)
                requires
                    16 <= w <= 1920,
            ;
        } else {
            assert(h * max_w / w >= h) by (nonlinear_arith)
                requires
                    16 <= w <= max_w,
                    h >= 0,
            ;
        }
    }
    assert(sat_mul_u32(h, max_w) <= h * max_w) by (nonlinear_arith)
        requires
            h >= 0,
            max_w >= 0,
    ;
    assert(h * max_w <= h * w) by (nonlinear_arith)
        requires
            h >= 0,
            max_w < w,
    ;
    lemma_div_at_most(sat_mul_u32(h, max_w), w, h);
}

proof fn lemma_div_at_most(x: int, d: int, q: int)
    requires
        0 <= x <= q * d,
        d > 0,
    ensures
        x / d <= q,
{
    assert(x / d <= q) by (nonlinear_arith)
        requires
            0 <= x <= q * d,
            d > 0,
    ;
}

proof fn lemma_fit_from_height(w: int, h: int, max_w: int, max_h: int)
    requires
        16 <= w <= u32::MAX,
        16 <= h <= u32::MAX,
        16 <= max_w <= 1920,
        16 <= max_h <= 1080,
        !(w <= max_w && h <= max_h),
        sat_mul_u32(h, max_w) / w > max_h,
    ensures
        max_h < h,
        sat_mul_u32(w, max_h) / h <= w,
        sat_mul_u32(w, max_h) / h <= max_w,
{
    assert(sat_mul_u32(h, max_w) <= h * max_w) by (nonlinear_arith)
        requires
            h >= 0,
            max_w >= 0,
    ;
    assert(sat_mul_u32(w, max_h) <= w * max_h) by (nonlinear_arith)
        requires
            w >= 0,
            max_h >= 0,
    ;
    // h * max_w > max_h * w, because the floor of (h * max_w) / w is above max_h
    assert(h * max_w >= (max_h + 1) * w) by (nonlinear_arith)
        requires
            sat_mul_u32(h, max_w) <= h * max_w,
            sat_mul_u32(h, max_w) / w > max_h,
            w > 0,
            sat_mul_u32(h, max_w) >= 0,
    ;
    if h <= max_h {
        assert(w > max_w);
        assert(h * max_w < h * w) by (nonlinear_arith)
            requires
                h > 0,
                max_w < w,
        ;
        assert((max_h + 1) * w <= h * w) by (nonlinear_arith)
            requires
                h * max_w >= (max_h + 1) * w,
                h * max_w < h * w,
        ;
        assert(max_h + 1 <= h) by (nonlinear_arith)
            requires
                (max_h + 1) * w <= h * w,
                w > 0,
        ;
    }
    assert(w * max_h <= w * h) by (nonlinear_arith)
        requires
            w >= 0,
            max_h < h,
    ;
    lemma_div_at_most(sat_mul_u32(w, max_h), h, w);
    assert(sat_mul_u32(w, max_h) / h <= max_w) by (nonlinear_arith)
        requires
            sat_mul_u32(w, max_h) <= w * max_h,
            sat_mul_u32(w, max_h) >= 0,
            h * max_w >= (max_h + 1) * w,
            h > 0,
            w > 0,
    ;
}

/// Which audio sources to open for a session.
#[derive(Debug, Clone, Copy, PartialEq, Eq, Structural)]
pub struct AudioConfig {
    /// Default render device loopback (system audio).
    pub system: bool,
    /// Default capture device (microphone).
    pub microphone: bool,
}

impl AudioConfig {
    /// Both sources off: video-only encode.
    pub fn none() -> (r: Self)
        ensures
            !r.system && !r.microphone,
    {
        AudioConfig { system: false, microphone: false }
    }

    /// Whether at least one source is on.
    pub fn is_enabled(self) -> (r: bool)
        ensures
            r == (self.system || self.microphone),
    {
        self.system || self.microphone
    }
}

impl Default for AudioConfig {
    /// System audio and microphone both on.
    fn default() -> (r: Self)
        ensures
            r.system && r.microphone,
    {
        AudioConfig { system: true, microphone: true }
    }
}

/// Settings for one recording session.
#[derive(Debug, Clone, PartialEq, Eq)]
pub struct RecordConfig {
    pub target: CaptureTarget,
    pub quality: Quality,
    /// Output file path.
    pub output: String,
    pub include_cursor: bool,
    pub audio: AudioConfig,
}

impl RecordConfig {
    /// Primary display, 1080p30, cursor shown, both audio sources on.
    pub fn new(output: String) -> (r: Self)
        ensures
            r.target == CaptureTarget::PrimaryDisplay,
            r.quality == Quality::P1080p30,
            r.output@ == output@,
            r.include_cursor,
            r.audio.system && r.audio.microphone,
    {
        RecordConfig {
            target: CaptureTarget::PrimaryDisplay,
            quality: Quality::P1080p30,
            output,
            include_cursor: true,
            audio: AudioConfig::default(),
        }
    }

    /// `LightCapture-{stamp}-primary.mp4` in `dir`, stamped with the current time.
    pub fn default_output_in(dir: &str) -> (r: String)
        ensures
            exists|secs: u64|
                joined_path(
                    dir@,
                    recording_filename_spec(stamp_spec(secs as nat), "primary"@),
                    r@,
                ),
    {
        Self::output_path(dir, "primary")
    }

    /// `LightCapture-{stamp}-{source}.mp4` in `dir`, stamped with the current time
    /// (`YYYYMMDD-HHMMSS`, UTC).
    pub fn output_path(dir: &str, source: &str) -> (r: String)
        ensures
            exists|secs: u64|
                joined_path(dir@, recording_filename_spec(stamp_spec(secs as nat), source@), r@),
    {
        let stamp = local_stamp();
        let ghost secs = choose|secs: u64| stamp@ == stamp_spec(secs as nat);
        let name = recording_filename(stamp.as_str(), source);
        proof {
            lemma_stamp_chars(secs as nat);
            lemma_recording_filename_plain(stamp@, source@);
        }
        let r = path_join(dir, name.as_str());
        assert(joined_path(dir@, recording_filename_spec(stamp_spec(secs as nat), source@), r@));
        r
    }
}

/// The file name `LightCapture-{stamp}-{slug}.mp4`.
pub open spec fn recording_filename_spec(stamp: Seq<char>, source: Seq<char>) -> Seq<char> {
    "LightCapture-"@ + stamp + "-"@ + sanitize_spec(source) + ".mp4"@
}

/// `LightCapture-{stamp}-{source}.mp4`
pub fn recording_filename(stamp: &str, source: &str) -> (r: String)
    ensures
        r@ == recording_filename_spec(stamp@, source@),
{
    let mut s = to_owned_string("LightCapture-");
    push_str(&mut s, stamp);
    push_str(&mut s, "-");
    let slug = sanitize_source_slug(source);
    push_str(&mut s, slug.as_str());
    push_str(&mut s, ".mp4");
    assert(s@ =~= recording_filename_spec(stamp@, source@));
    s
}

/// A character kept as it is in a slug.
pub open spec fn slug_char(c: char) -> bool {
    is_ascii_alnum(c) || c == '_' || c == '-'
}

/// One step of the slug scan: keep allowed characters, turn others into one `-`.
pub open spec fn slug_step(out: Seq<char>, c: char) -> Seq<char> {
    if slug_char(c) {
        out.push(c)
    } else if out.len() > 0 && out.last() != '-' {
        out.push('-')
    } else {
        out
    }
}

/// Scans `rest` into `out`, stopping once `out` holds 40 characters.
pub open spec fn slug_scan(out: Seq<char>, rest: Seq<char>) -> Seq<char>
    decreases rest.len(),
{
    if rest.len() == 0 || out.len() >= 40 {
        out
    } else {
        slug_scan(slug_step(out, rest[0]), rest.drop_first())
    }
}

/// The slug of `raw`: the scan with `-` trimmed from both ends, or `source` when nothing is
/// left.
pub open spec fn sanitize_spec(raw: Seq<char>) -> Seq<char> {
    let t = trim_matches_char(slug_scan(Seq::empty(), raw), '-');
    if t.len() == 0 {
        "source"@
    } else {
        t
    }
}

proof fn lemma_slug_scan_unfold(out: Seq<char>, rest: Seq<char>)
    requires
        rest.len() > 0,
        out.len() < 40,
    ensures
        slug_scan(out, rest) == slug_scan(slug_step(out, rest[0]), rest.drop_first()),
{
}

/// Keep ASCII letters, digits, `_`, and `-`; collapse other runs to `-`.
pub fn sanitize_source_slug(raw: &str) -> (r: String)
    ensures
        r@ == sanitize_spec(raw@),
        0 < r@.len() <= 40,
        forall|j: int| 0 <= j < r@.len() ==> slug_char(#[trigger] r@[j]),
        r@[0] != '-' && r@.last() != '-',
{
    let n = raw.unicode_len();
    let mut out = String::new();
    let mut count: usize = 0;
    let mut last_dash = false;
    let mut i: usize = 0;
    assert(raw@.subrange(0, n as int) =~= raw@);
    while i < n && count < 40
        invariant
            n == raw@.len(),
            0 <= i <= n,
            count == out@.len(),
            count <= 40,
            slug_scan(out@, raw@.subrange(i as int, n as int)) == slug_scan(Seq::empty(), raw@),
            forall|j: int| 0 <= j < out@.len() ==> slug_char(#[trigger] out@[j]),
            last_dash == (out@.len() > 0 && out@.last() == '-'),
        decreases n - i,
    {
        let ch = raw.get_char(i);
        let ghost before = out@;
        proof {
            let rest = raw@.subrange(i as int, n as int);
            lemma_slug_scan_unfold(out@, rest);
            assert(rest.drop_first() =~= raw@.subrange(i + 1, n as int));
        }
        if char_is_ascii_alnum(ch) || ch == '_' || ch == '-' {
            push_char(&mut out, ch);
            count = count + 1;
            last_dash = ch == '-';
        } else if count > 0 && !last_dash {
            push_char(&mut out, '-');
            count = count + 1;
            last_dash = true;
        }
        assert(out@ == slug_step(before, ch));
        i = i + 1;
    }
    proof {
        let rest = raw@.subrange(i as int, n as int);
        assert(slug_scan(out@, rest) == out@);
    }
    let trimmed = trim_matches_str(out.as_str(), '-');
    let ghost t = trimmed@;
    proof {
        let k = choose|k: int|
            0 <= k && k + t.len() <= out@.len() && t == #[trigger] out@.subrange(k, k + t.len());
        assert forall|j: int| 0 <= j < t.len() implies slug_char(#[trigger] t[j]) by {
            assert(t[j] == out@[k + j]);
        }
    }
    if trimmed.unicode_len() == 0 {
        proof {
            reveal_strlit("source");
        }
        return to_owned_string("source");
    }
    to_owned_string(trimmed)
}

/// A finished slug: 1 to 40 allowed characters, not starting or ending with `-`.
pub open spec fn is_slug(t: Seq<char>) -> bool {
    &&& 0 < t.len() <= 40
    &&& forall|j: int| 0 <= j < t.len() ==> slug_char(#[trigger] t[j])
    &&& t[0] != '-'
    &&& t.last() != '-'
}

proof fn lemma_slug_scan_shape(out: Seq<char>, rest: Seq<char>)
    requires
        out.len() <= 40,
        forall|j: int| 0 <= j < out.len() ==> slug_char(#[trigger] out[j]),
    ensures
        slug_scan(out, rest).len() <= 40,
        forall|j: int|
            0 <= j < slug_scan(out, rest).len() ==> slug_char(#[trigger] slug_scan(out, rest)[j]),
    decreases rest.len(),
{
    if rest.len() > 0 && out.len() < 40 {
        let next = slug_step(out, rest[0]);
        assert forall|j: int| 0 <= j < next.len() implies slug_char(#[trigger] next[j]) by {
            if j < out.len() {
                assert(next[j] == out[j]);
            }
        }
        lemma_slug_scan_shape(next, rest.drop_first());
    }
}

proof fn lemma_trim_dash_shape(s: Seq<char>)
    ensures
        trim_matches_char(s, '-').len() > 0 ==> trim_matches_char(s, '-')[0] != '-'
            && trim_matches_char(s, '-').last() != '-',
        trim_matches_char(s, '-').len() <= s.len(),
        forall|j: int|
            0 <= j < trim_matches_char(s, '-').len() ==> exists|k: int|
                0 <= k < s.len() && #[trigger] trim_matches_char(s, '-')[j] == s[k],
{
    lemma_trim_start_dash(s);
    let a = crate::text::trim_start_char(s, '-');
    lemma_trim_end_dash(a);
    let b = crate::text::trim_end_char(a, '-');
    assert forall|j: int| 0 <= j < b.len() implies exists|k: int|
        0 <= k < s.len() && #[trigger] b[j] == s[k] by {
        let ka = choose|k: int| 0 <= k < a.len() && b[j] == a[k];
        let ks = choose|k: int| 0 <= k < s.len() && a[ka] == s[k];
        assert(b[j] == s[ks]);
    }
}

proof fn lemma_trim_start_dash(s: Seq<char>)
    ensures
        ({
            let t = crate::text::trim_start_char(s, '-');
            &&& t.len() <= s.len()
            &&& t.len() > 0 ==> t[0] != '-'
            &&& forall|j: int| 0 <= j < t.len() ==> exists|k: int| 0 <= k < s.len() && #[trigger] t[j] == s[k]
        }),
    decreases s.len(),
{
    if s.len() > 0 && s[0] == '-' {
        lemma_trim_start_dash(s.drop_first());
        let t = crate::text::trim_start_char(s, '-');
        assert forall|j: int| 0 <= j < t.len() implies exists|k: int|
            0 <= k < s.len() && #[trigger] t[j] == s[k] by {
            let k = choose|k: int| 0 <= k < s.drop_first().len() && t[j] == s.drop_first()[k];
            assert(t[j] == s[k + 1]);
        }
    } else {
        let t = s;
        assert forall|j: int| 0 <= j < t.len() implies exists|k: int|
            0 <= k < s.len() && #[trigger] t[j] == s[k] by {
            assert(t[j] == s[j]);
        }
    }
}

proof fn lemma_trim_end_dash(s: Seq<char>)
    ensures
        ({
            let t = crate::text::trim_end_char(s, '-');
            &&& t.len() <= s.len()
            &&& t.len() > 0 ==> t.last() != '-'
            &&& s.len() > 0 && s[0] != '-' && t.len() > 0 ==> t[0] == s[0]
            &&& forall|j: int| 0 <= j < t.len() ==> exists|k: int| 0 <= k < s.len() && #[trigger] t[j] == s[k]
        }),
    decreases s.len(),
{
    if s.len() > 0 && s.last() == '-' {
        lemma_trim_end_dash(s.drop_last());
        let t = crate::text::trim_end_char(s, '-');
        assert forall|j: int| 0 <= j < t.len() implies exists|k: int|
            0 <= k < s.len() && #[trigger] t[j] == s[k] by {
            let k = choose|k: int| 0 <= k < s.drop_last().len() && t[j] == s.drop_last()[k];
            assert(t[j] == s[k]);
        }
    } else {
        let t = s;
        assert forall|j: int| 0 <= j < t.len() implies exists|k: int|
            0 <= k < s.len() && #[trigger] t[j] == s[k] by {
            assert(t[j] == s[j]);
        }
    }
}

proof fn lemma_sanitize_is_slug(raw: Seq<char>)
    ensures
        is_slug(sanitize_spec(raw)),
{
    let scanned = slug_scan(Seq::empty(), raw);
    lemma_slug_scan_shape(Seq::empty(), raw);
    lemma_trim_dash_shape(scanned);
    let t = trim_matches_char(scanned, '-');
    if t.len() == 0 {
        reveal_strlit("source");
        assert(is_slug("source"@));
    } else {
        assert forall|j: int| 0 <= j < t.len() implies slug_char(#[trigger] t[j]) by {
            let k = choose|k: int| 0 <= k < scanned.len() && t[j] == scanned[k];
            assert(slug_char(scanned[k]));
        }
    }
}

proof fn lemma_slug_scan_keeps(t: Seq<char>, k: int)
    requires
        t.len() <= 40,
        forall|j: int| 0 <= j < t.len() ==> slug_char(#[trigger] t[j]),
        0 <= k <= t.len(),
    ensures
        slug_scan(t.subrange(0, k), t.subrange(k, t.len() as int)) == t,
    decreases t.len() - k,
{
    if k < t.len() {
        let out = t.subrange(0, k);
        let rest = t.subrange(k, t.len() as int);
        assert(rest[0] == t[k]);
        assert(slug_step(out, rest[0]) =~= t.subrange(0, k + 1));
        assert(rest.drop_first() =~= t.subrange(k + 1, t.len() as int));
        lemma_slug_scan_keeps(t, k + 1);
    } else {
        assert(t.subrange(0, k) =~= t);
    }
}

/// Sanitizing a slug leaves it as it is, so a slug is a fixed point of sanitizing.
pub proof fn lemma_sanitize_idempotent(raw: Seq<char>)
    ensures
        is_slug(sanitize_spec(raw)),
        sanitize_spec(sanitize_spec(raw)) == sanitize_spec(raw),
{
    lemma_sanitize_is_slug(raw);
    let t = sanitize_spec(raw);
    lemma_slug_scan_keeps(t, 0);
    assert(t.subrange(0, 0) =~= Seq::<char>::empty());
    assert(t.subrange(0, t.len() as int) =~= t);
    assert(crate::text::trim_start_char(t, '-') == t);
    assert(crate::text::trim_end_char(t, '-') == t);
}

/// H.264 CBR bitrate from geometry and FPS, clamped to 4-16 Mbps.
pub open spec fn bitrate_spec(width: int, height: int, fps: int) -> int {
    let raw = width * height * fps / 10;
    if raw < 4_000_000 {
        4_000_000
    } else if raw > 16_000_000 {
        16_000_000
    } else {
        raw
    }
}

/// H.264 CBR bitrate from geometry and FPS, clamped to 4-16 Mbps.
pub fn default_bitrate_bps(width: u32, height: u32, fps: u32) -> (r: u32)
    requires
        width * height * fps <= u64::MAX,
    ensures
        r == bitrate_spec(width as int, height as int, fps as int),
        4_000_000 <= r <= 16_000_000,
{
    assert((width as u64) * (height as u64) <= u32::MAX * u32::MAX) by (nonlinear_arith)
        requires
            width <= u32::MAX,
            height <= u32::MAX,
    ;
    let raw: u64 = (width as u64) * (height as u64) * (fps as u64) / 10;
    if raw < 4_000_000 {
        4_000_000
    } else if raw > 16_000_000 {
        16_000_000
    } else {
        raw as u32
    }
}

/// The current time as a file-name stamp, `YYYYMMDD-HHMMSS` in UTC.
fn local_stamp() -> (r: String)
    ensures
        exists|secs: u64| r@ == stamp_spec(secs as nat),
{
    stamp_of(unix_secs())
}

/// A path component that `Path::join` adjoins as it is: not empty, not `.` or `..`, and
/// without `/`, `\` or `:`.
pub open spec fn plain_name(s: Seq<char>) -> bool {
    &&& s.len() > 0
    &&& s != seq!['.']
    &&& s != seq!['.', '.']
    &&& forall|i: int| 0 <= i < s.len() ==> #[trigger] s[i] != '/' && s[i] != '\\' && s[i] != ':'
}

/// A path with a verbatim prefix (`\\?\`).
pub open spec fn verbatim(dir: Seq<char>) -> bool {
    has_prefix(dir, seq!['\\', '\\', '?', '\\'])
}

/// `r` is `name` adjoined to `dir` as its last component: it ends with `name`; unless `dir` has
/// a verbatim prefix it is `dir` and `name` with one separator (`/` or `\`) or none between
/// them; a `dir` that is not empty and ends in neither a separator nor `:` is followed by a
/// separator; and a verbatim `dir` keeps its prefix.
pub open spec fn joined_path(dir: Seq<char>, name: Seq<char>, r: Seq<char>) -> bool {
    &&& has_suffix(r, name)
    &&& !verbatim(dir) ==> (r == dir + name || r == dir + seq!['/'] + name || r == dir + seq![
        '\\',
    ] + name)
    &&& (dir.len() > 0 && dir.last() != '/' && dir.last() != '\\' && dir.last() != ':') ==> (
    has_suffix(r, seq!['/'] + name) || has_suffix(r, seq!['\\'] + name))
    &&& verbatim(dir) ==> verbatim(r)
}

/// A calendar stamp holds only digits and `-`.
proof fn lemma_stamp_chars(secs: nat)
    ensures
        forall|i: int|
            0 <= i < stamp_spec(secs).len() ==> is_digit(#[trigger] stamp_spec(secs)[i])
                || stamp_spec(secs)[i] == '-',
{
    let c = civil(secs);
    lemma_padded_digits(c.0);
    lemma_padded_digits(c.1);
    lemma_padded_digits(c.2);
    lemma_padded_digits(c.3);
    lemma_padded_digits(c.4);
    lemma_padded_digits(c.5);
    let s = stamp_spec(secs);
    let p1 = decimal4(c.0);
    let p2 = p1 + decimal2(c.1);
    let p3 = p2 + decimal2(c.2);
    let p4 = p3 + seq!['-'];
    let p5 = p4 + decimal2(c.3);
    let p6 = p5 + decimal2(c.4);
    assert(s == p6 + decimal2(c.5));
    assert forall|i: int| 0 <= i < s.len() implies is_digit(#[trigger] s[i]) || s[i] == '-' by {
        if i >= p6.len() {
            assert(s[i] == decimal2(c.5)[i - p6.len()]);
        } else if i >= p5.len() {
            assert(s[i] == decimal2(c.4)[i - p5.len()]);
        } else if i >= p4.len() {
            assert(s[i] == decimal2(c.3)[i - p4.len()]);
        } else if i >= p3.len() {
            assert(s[i] == seq!['-'][i - p3.len()]);
        } else if i >= p2.len() {
            assert(s[i] == decimal2(c.2)[i - p2.len()]);
        } else if i >= p1.len() {
            assert(s[i] == decimal2(c.1)[i - p1.len()]);
        } else {
            assert(s[i] == p1[i]);
        }
    }
}

/// Zero-padded decimals hold only digits.
proof fn lemma_padded_digits(n: nat)
    ensures
        all_digits(decimal2(n)),
        all_digits(decimal4(n)),
{
    lemma_decimal_digits(n);
    let d = decimal(n);
    assert forall|i: int| 0 <= i < decimal2(n).len() implies is_digit(#[trigger] decimal2(n)[i]) by {
        if n < 10 {
            if i >= 1 {
                assert(decimal2(n)[i] == d[i - 1]);
            }
        }
    }
    assert forall|i: int| 0 <= i < decimal4(n).len() implies is_digit(#[trigger] decimal4(n)[i]) by {
        if n < 10 {
            if i >= 3 {
                assert(decimal4(n)[i] == d[i - 3]);
            }
        } else if n < 100 {
            if i >= 2 {
                assert(decimal4(n)[i] == d[i - 2]);
            }
        } else if n < 1000 {
            if i >= 1 {
                assert(decimal4(n)[i] == d[i - 1]);
            }
        }
    }
}

/// A recording's file name is a plain path component.
proof fn lemma_recording_filename_plain(stamp: Seq<char>, source: Seq<char>)
    requires
        forall|i: int| 0 <= i < stamp.len() ==> is_digit(#[trigger] stamp[i]) || stamp[i] == '-',
    ensures
        plain_name(recording_filename_spec(stamp, source)),
{
    let slug = sanitize_spec(source);
    lemma_sanitize_is_slug(source);
    reveal_strlit("LightCapture-");
    reveal_strlit("-");
    reveal_strlit(".mp4");
    let name = recording_filename_spec(stamp, source);
    let a = "LightCapture-"@;
    let b = a + stamp;
    let c = b + "-"@;
    let d = c + slug;
    assert(name == d + ".mp4"@);
    assert forall|i: int| 0 <= i < name.len() implies #[trigger] name[i] != '/' && name[i] != '\\'
        && name[i] != ':' by {
        if i >= d.len() {
            assert(name[i] == ".mp4"@[i - d.len()]);
        } else if i >= c.len() {
            assert(name[i] == slug[i - c.len()]);
            assert(slug_char(slug[i - c.len()]));
        } else if i >= b.len() {
            assert(name[i] == "-"@[i - b.len()]);
        } else if i >= a.len() {
            assert(name[i] == stamp[i - a.len()]);
            assert(is_digit(stamp[i - a.len()]) || stamp[i - a.len()] == '-');
        } else {
            assert(name[i] == a[i]);
        }
    }
    assert(name.len() > 2);
}

/// `std::path::Path::join`: `file` adjoined to `dir`. For a plain `file` the result is as
/// [`joined_path`] describes; which separator goes between them depends on the platform, and
/// a verbatim `dir` is normalized, so no clause pins the result further.
#[verifier::external_body]
pub(crate) fn path_join(dir: &str, file: &str) -> (r: String)
    ensures
        plain_name(file@) ==> joined_path(dir@, file@, r@),
{
    std::path::Path::new(dir).join(file).to_string_lossy().into_owned()
}

} // verus!
