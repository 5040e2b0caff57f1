//! Persisted tray settings: quality, source, folder, audio, profile, recent files, stream.
use vstd::prelude::*;

use crate::config::{sanitize_source_slug, sanitize_spec, AudioConfig, CaptureTarget, Quality, TargetView};
use crate::config::{joined_path, path_join, plain_name, quality_box, quality_fps};
use crate::platform::CaptureDisplay;
use crate::text::{decimal, is_ascii_alnum, push_decimal, texts_view, to_owned_string, trim, trim_str};

use directories::{BaseDirs, UserDirs};

verus! {

/// How many recent recordings the tray keeps.
pub const RECENT_MAX: usize = 10;

/// Quality preset as stored in the settings file.
#[derive(Debug, Clone, Copy, PartialEq, Eq, Structural)]
pub enum QualitySetting {
    P720p24,
    P720p30,
    P1080p30,
    P1080p60,
}

/// The engine preset for a stored quality.
pub open spec fn quality_of(q: QualitySetting) -> Quality {
    match q {
        QualitySetting::P720p24 => Quality::P720p24,
        QualitySetting::P720p30 => Quality::P720p30,
        QualitySetting::P1080p30 => Quality::P1080p30,
        QualitySetting::P1080p60 => Quality::P1080p60,
    }
}

impl From<QualitySetting> for Quality {
    fn from(value: QualitySetting) -> (r: Quality) {
        match value {
            QualitySetting::P720p24 => Quality::P720p24,
            QualitySetting::P720p30 => Quality::P720p30,
            QualitySetting::P1080p30 => Quality::P1080p30,
            QualitySetting::P1080p60 => Quality::P1080p60,
        }
    }
}

impl vstd::std_specs::convert::FromSpecImpl<QualitySetting> for Quality {
    open spec fn obeys_from_spec() -> bool {
        true
    }

    open spec fn from_spec(v: QualitySetting) -> Quality {
        quality_of(v)
    }
}

/// A named bundle of quality and audio choices.
#[derive(Debug, Clone, Copy, PartialEq, Eq, Structural)]
pub enum ProfileId {
    Work,
    Game,
    Silent,
}

impl Default for ProfileId {
    fn default() -> (r: Self)
        ensures
            r == ProfileId::Work,
    {
        ProfileId::Work
    }
}

/// The quality a profile selects.
pub open spec fn profile_quality(p: ProfileId) -> QualitySetting {
    match p {
        ProfileId::Work => QualitySetting::P1080p30,
        ProfileId::Game => QualitySetting::P1080p60,
        ProfileId::Silent => QualitySetting::P720p30,
    }
}

/// The audio sources a profile selects.
pub open spec fn profile_audio(p: ProfileId) -> AudioSetting {
    match p {
        ProfileId::Work => AudioSetting { system: true, microphone: true },
        ProfileId::Game => AudioSetting { system: true, microphone: false },
        ProfileId::Silent => AudioSetting { system: false, microphone: false },
    }
}

/// `s` and `t` agree on everything a profile does not set.
pub open spec fn same_but_profile(s: Settings, t: Settings) -> bool {
    &&& s.source == t.source
    &&& s.output_dir == t.output_dir
    &&& s.include_cursor == t.include_cursor
    &&& s.recent == t.recent
    &&& s.stream_enabled == t.stream_enabled
    &&& s.stream_url == t.stream_url
}

impl ProfileId {
    /// Selects this profile: its quality and audio sources; nothing else changes.
    pub fn apply(self, settings: &mut Settings)
        ensures
            final(settings).profile == self,
            final(settings).quality == profile_quality(self),
            final(settings).audio == profile_audio(self),
            same_but_profile(*final(settings), *old(settings)),
    {
        settings.profile = self;
        match self {
            ProfileId::Work => {
                settings.quality = QualitySetting::P1080p30;
                settings.audio = AudioSetting { system: true, microphone: true };
            },
            ProfileId::Game => {
                settings.quality = QualitySetting::P1080p60;
                settings.audio = AudioSetting { system: true, microphone: false };
            },
            ProfileId::Silent => {
                settings.quality = QualitySetting::P720p30;
                settings.audio = AudioSetting { system: false, microphone: false };
            },
        }
    }
}

/// Audio sources as stored in the settings file.
#[derive(Debug, Clone, Copy, PartialEq, Eq, Structural)]
pub struct AudioSetting {
    pub system: bool,
    pub microphone: bool,
}

impl Default for AudioSetting {
    fn default() -> (r: Self)
        ensures
            r.system && r.microphone,
    {
        AudioSetting { system: true, microphone: true }
    }
}

impl From<AudioSetting> for AudioConfig {
    fn from(value: AudioSetting) -> (r: AudioConfig) {
        AudioConfig { system: value.system, microphone: value.microphone }
    }
}

impl vstd::std_specs::convert::FromSpecImpl<AudioSetting> for AudioConfig {
    open spec fn obeys_from_spec() -> bool {
        true
    }

    open spec fn from_spec(v: AudioSetting) -> AudioConfig {
        AudioConfig { system: v.system, microphone: v.microphone }
    }
}

impl AudioSetting {
    /// Whether at least one source is on.
    pub fn is_enabled(self) -> (r: bool)
        ensures
            r == (self.system || self.microphone),
    {
        self.system || self.microphone
    }
}

/// Capture source as stored in the settings file.
#[derive(Debug, Clone, PartialEq, Eq)]
pub enum SourceSetting {
    Primary,
    Display { index: usize, id: String, name: String },
    Foreground,
    Window { title: String },
}

/// A capture source with its texts as character sequences.
pub ghost enum SourceView {
    Primary,
    Display { index: usize, id: Seq<char>, name: Seq<char> },
    Foreground,
    Window { title: Seq<char> },
}

impl View for SourceSetting {
    type V = SourceView;

    open spec fn view(&self) -> SourceView {
        match *self {
            SourceSetting::Primary => SourceView::Primary,
            SourceSetting::Display { index, id, name } => SourceView::Display {
                index,
                id: id@,
                name: name@,
            },
            SourceSetting::Foreground => SourceView::Foreground,
            SourceSetting::Window { title } => SourceView::Window { title: title@ },
        }
    }
}

/// The engine target a stored source names on its own: a display by id when it has one,
/// else by index.
pub open spec fn to_target_spec(s: SourceView) -> TargetView {
    match s {
        SourceView::Primary => TargetView::PrimaryDisplay,
        SourceView::Display { index, id, name } => if id.len() > 0 {
            TargetView::Display(id)
        } else {
            TargetView::DisplayIndex(index)
        },
        SourceView::Foreground => TargetView::ForegroundWindow,
        SourceView::Window { title } => TargetView::WindowTitle(title),
    }
}

/// Index of the first display whose name is `name`, if any.
pub open spec fn first_named(displays: Seq<CaptureDisplay>, name: Seq<char>) -> Option<int> {
    if exists|i: int| 0 <= i < displays.len() && #[trigger] displays[i].name@ == name {
        Some(
            choose|i: int|
                0 <= i < displays.len() && #[trigger] displays[i].name@ == name && forall|j: int|
                    0 <= j < i ==> displays[j].name@ != name,
        )
    } else {
        None
    }
}

/// The engine target for a stored source given the displays present now: a display id that
/// is present wins, then a display found by name, then the one-based index, then the stored
/// id, then the primary display.
pub open spec fn resolve_spec(s: SourceView, displays: Seq<CaptureDisplay>) -> TargetView {
    match s {
        SourceView::Primary => TargetView::PrimaryDisplay,
        SourceView::Foreground => TargetView::ForegroundWindow,
        SourceView::Display { index, id, name } => resolve_display_spec(index, id, name, displays),
        SourceView::Window { title } => TargetView::WindowTitle(title),
    }
}

/// Whether some display has this device id.
pub open spec fn has_device_id(displays: Seq<CaptureDisplay>, id: Seq<char>) -> bool {
    exists|i: int| 0 <= i < displays.len() && #[trigger] displays[i].device_id@ == id
}

/// The engine target for a stored display source given the displays present now.
pub open spec fn resolve_display_spec(
    index: usize,
    id: Seq<char>,
    name: Seq<char>,
    displays: Seq<CaptureDisplay>,
) -> TargetView {
    if id.len() > 0 && has_device_id(displays, id) {
        TargetView::Display(id)
    } else if name.len() > 0 && first_named(displays, name) is Some {
        TargetView::Display(displays[first_named(displays, name)->0].device_id@)
    } else if index >= 1 {
        TargetView::DisplayIndex(index)
    } else if id.len() > 0 {
        TargetView::Display(id)
    } else {
        TargetView::PrimaryDisplay
    }
}

fn resolve_display(index: usize, id: &String, name: &String, displays: &[CaptureDisplay]) -> (r: CaptureTarget)
    ensures
        r@ == resolve_display_spec(index, id@, name@, displays@),
{
    let has_id = id.as_str().unicode_len() > 0;
    if has_id && any_device_id(displays, id.as_str()) {
        return CaptureTarget::Display { id: copy_string(id) };
    }
    if name.as_str().unicode_len() > 0 {
        if let Some(k) = find_named(displays, name.as_str()) {
            return CaptureTarget::Display { id: copy_string(&displays[k].device_id) };
        }
    }
    if index >= 1 {
        CaptureTarget::DisplayIndex(index)
    } else if has_id {
        CaptureTarget::Display { id: copy_string(id) }
    } else {
        CaptureTarget::PrimaryDisplay
    }
}

/// The file-name slug of a stored source.
pub open spec fn source_slug_spec(s: SourceView) -> Seq<char> {
    match s {
        SourceView::Primary => "primary"@,
        SourceView::Foreground => "foreground"@,
        SourceView::Display { index, id, name } => if trim(name).len() > 0 {
            sanitize_spec(name)
        } else if id.len() > 0 {
            sanitize_spec(id)
        } else {
            "display"@ + decimal(index as nat)
        },
        SourceView::Window { title } => sanitize_spec(title),
    }
}

fn copy_string(s: &String) -> (r: String)
    ensures
        r@ == s@,
{
    to_owned_string(s.as_str())
}

impl SourceSetting {
    /// The engine target this source names on its own.
    pub fn to_target(&self) -> (r: CaptureTarget)
        ensures
            r@ == to_target_spec(self@),
    {
        match self {
            SourceSetting::Primary => CaptureTarget::PrimaryDisplay,
            SourceSetting::Display { id, index, .. } => {
                if id.as_str().unicode_len() > 0 {
                    CaptureTarget::Display { id: copy_string(id) }
                } else {
                    CaptureTarget::DisplayIndex(*index)
                }
            },
            SourceSetting::Foreground => CaptureTarget::ForegroundWindow,
            SourceSetting::Window { title } => CaptureTarget::WindowTitle(copy_string(title)),
        }
    }

    /// The engine target for this source given the displays present now.
    pub fn resolve(&self, displays: &[CaptureDisplay]) -> (r: CaptureTarget)
        ensures
            r@ == resolve_spec(self@, displays@),
    {
        match self {
            SourceSetting::Primary => CaptureTarget::PrimaryDisplay,
            SourceSetting::Foreground => CaptureTarget::ForegroundWindow,
            SourceSetting::Display { id, name, index } => resolve_display(*index, id, name, displays),
            SourceSetting::Window { title } => CaptureTarget::WindowTitle(copy_string(title)),
        }
    }

    /// Filesystem-safe token for default recording names.
    pub fn source_slug(&self) -> (r: String)
        ensures
            r@ == source_slug_spec(self@),
    {
        match self {
            SourceSetting::Primary => to_owned_string("primary"),
            SourceSetting::Foreground => to_owned_string("foreground"),
            SourceSetting::Display { name, id, index } => {
                if trim_str(name.as_str()).unicode_len() > 0 {
                    sanitize_source_slug(name.as_str())
                } else if id.as_str().unicode_len() > 0 {
                    sanitize_source_slug(id.as_str())
                } else {
                    let mut s = to_owned_string("display");
                    push_decimal(&mut s, *index as u64);
                    s
                }
            },
            SourceSetting::Window { title } => sanitize_source_slug(title.as_str()),
        }
    }
}

fn any_device_id(displays: &[CaptureDisplay], id: &str) -> (r: bool)
    ensures
        r == has_device_id(displays@, id@),
{
    let mut i: usize = 0;
    while i < displays.len()
        invariant
            0 <= i <= displays@.len(),
            forall|j: int| 0 <= j < i ==> displays@[j].device_id@ != id@,
        decreases displays@.len() - i,
    {
        if crate::text::str_eq(displays[i].device_id.as_str(), id) {
            return true;
        }
        i = i + 1;
    }
    false
}

/// Index of the first display with this name.
pub fn find_named(displays: &[CaptureDisplay], name: &str) -> (r: Option<usize>)
    ensures
        match first_named(displays@, name@) {
            Some(k) => r is Some && r->0 as int == k,
            None => r is None,
        },
        r matches Some(k) ==> k < displays@.len() && displays@[k as int].name@ == name@,
{
    let mut i: usize = 0;
    while i < displays.len()
        invariant
            0 <= i <= displays@.len(),
            forall|j: int| 0 <= j < i ==> displays@[j].name@ != name@,
        decreases displays@.len() - i,
    {
        if crate::text::str_eq(displays[i].name.as_str(), name) {
            proof {
                let d = displays@;
                let k = choose|k: int|
                    0 <= k < d.len() && #[trigger] d[k].name@ == name@ && forall|j: int|
                        0 <= j < k ==> d[j].name@ != name@;
                assert(d[i as int].name@ == name@);
                if k < i {
                    assert(d[k].name@ != name@);
                }
                if (i as int) < k {
                    assert(d[i as int].name@ != name@);
                }
            }
            return Some(i);
        }
        i = i + 1;
    }
    None
}

/// The tray's persisted settings.
#[derive(Debug, Clone, PartialEq, Eq)]
pub struct Settings {
    pub quality: QualitySetting,
    pub source: SourceSetting,
    pub output_dir: String,
    pub include_cursor: bool,
    pub audio: AudioSetting,
    pub profile: ProfileId,
    pub recent: Vec<String>,
    pub stream_enabled: bool,
    pub stream_url: String,
}

/// `s` without the entries that `marks` flags, in order.
pub open spec fn unmarked(s: Seq<Seq<char>>, marks: Seq<bool>) -> Seq<Seq<char>>
    decreases s.len(),
{
    if s.len() == 0 {
        s
    } else if marks[s.len() - 1] {
        unmarked(s.drop_last(), marks)
    } else {
        unmarked(s.drop_last(), marks).push(s.last())
    }
}

/// The recent list after `p` is recorded, where `marks` flags the old entries that are the
/// same file as `p`: `p` first, then the unflagged entries in order, at most [`RECENT_MAX`].
pub open spec fn recent_after(recent: Seq<Seq<char>>, p: Seq<char>, marks: Seq<bool>) -> Seq<Seq<char>> {
    let all = seq![p] + unmarked(recent, marks);
    if all.len() > RECENT_MAX {
        all.subrange(0, RECENT_MAX as int)
    } else {
        all
    }
}

/// `marks` flags one entry of `recent` each: every entry with the same text as `p`, and no
/// entry that, like `p`, is a plain name with a different text.
pub open spec fn marks_same(recent: Seq<Seq<char>>, p: Seq<char>, marks: Seq<bool>) -> bool {
    &&& marks.len() == recent.len()
    &&& forall|i: int| 0 <= i < recent.len() && recent[i] == p ==> #[trigger] marks[i]
    &&& forall|i: int|
        0 <= i < recent.len() && plain_name(p) && plain_name(recent[i]) && recent[i] != p
            ==> !#[trigger] marks[i]
}

/// The flags of the entries with the same text as `p`.
pub open spec fn text_marks(recent: Seq<Seq<char>>, p: Seq<char>) -> Seq<bool> {
    Seq::new(recent.len(), |k: int| recent[k] == p)
}

/// Every entry is a plain name.
pub open spec fn all_plain(recent: Seq<Seq<char>>) -> bool {
    forall|k: int| 0 <= k < recent.len() ==> plain_name(#[trigger] recent[k])
}

/// `new` is `recent` after `p` is recorded, for some flagging of the entries that are the same
/// file as `p` (entries with the same text always are).
pub open spec fn recent_pushed(recent: Seq<Seq<char>>, p: Seq<char>, new: Seq<Seq<char>>) -> bool {
    exists|marks: Seq<bool>| marks_same(recent, p, marks) && new == recent_after(recent, p, marks)
}

/// No entry occurs twice.
pub open spec fn no_duplicates(s: Seq<Seq<char>>) -> bool {
    forall|i: int, j: int| 0 <= i < j < s.len() ==> s[i] != s[j]
}

proof fn lemma_unmarked_props(s: Seq<Seq<char>>, p: Seq<char>, marks: Seq<bool>)
    requires
        marks_same(s, p, marks),
    ensures
        forall|i: int| 0 <= i < unmarked(s, marks).len() ==> #[trigger] unmarked(s, marks)[i] != p,
        forall|i: int| 0 <= i < unmarked(s, marks).len() ==> s.contains(#[trigger] unmarked(s, marks)[i]),
        no_duplicates(s) ==> no_duplicates(unmarked(s, marks)),
        unmarked(s, marks).len() <= s.len(),
    decreases s.len(),
{
    if s.len() > 0 {
        let d = s.drop_last();
        let dm = marks.subrange(0, d.len() as int);
        assert(marks_same(d, p, dm));
        lemma_unmarked_same(d, marks, dm);
        let w = unmarked(d, marks);
        lemma_unmarked_props(d, p, dm);
        if !marks[s.len() - 1] {
            assert(s[s.len() - 1] != p);
        }
        assert forall|i: int| 0 <= i < unmarked(s, marks).len() implies s.contains(
            #[trigger] unmarked(s, marks)[i],
        ) by {
            if !marks[s.len() - 1] && i == w.len() {
                assert(s[s.len() - 1] == s.last());
            } else {
                let x = unmarked(s, marks)[i];
                assert(x == w[i]);
                assert(d.contains(x));
                let k = choose|k: int| 0 <= k < d.len() && d[k] == x;
                assert(s[k] == x);
            }
        }
        if no_duplicates(s) {
            assert(no_duplicates(d));
            if !marks[s.len() - 1] {
                assert forall|i: int, j: int|
                    0 <= i < j < unmarked(s, marks).len() implies unmarked(s, marks)[i]
                    != unmarked(s, marks)[j] by {
                    if j == w.len() {
                        let x = w[i];
                        assert(d.contains(x));
                        let k = choose|k: int| 0 <= k < d.len() && d[k] == x;
                        assert(s[k] == x);
                        assert(s[k] != s[s.len() - 1]);
                    }
                }
            }
        }
    }
}

/// The entries past `s` do not matter to which of `s` are kept.
proof fn lemma_unmarked_same(s: Seq<Seq<char>>, m1: Seq<bool>, m2: Seq<bool>)
    requires
        m1.len() >= s.len(),
        m2.len() >= s.len(),
        forall|i: int| 0 <= i < s.len() ==> m1[i] == m2[i],
    ensures
        unmarked(s, m1) == unmarked(s, m2),
    decreases s.len(),
{
    if s.len() > 0 {
        lemma_unmarked_same(s.drop_last(), m1, m2);
    }
}

/// Whether two paths name the same file: `std::path::Path`'s `==`, which compares the paths'
/// components. Equal texts are the same path, and two plain names (one component each) are the
/// same path exactly when their texts are equal; for other paths the components depend on the
/// platform's separators, so no clause states more.
#[verifier::external_body]
fn same_path(a: &str, b: &str) -> (r: bool)
    ensures
        a@ == b@ ==> r,
        plain_name(a@) && plain_name(b@) ==> (r <==> a@ == b@),
{
    std::path::Path::new(a) == std::path::Path::new(b)
}

impl Settings {
    /// The settings a read of the settings file gives: what it held, or the defaults when the
    /// file is missing or does not parse (`None`).
    pub fn load(stored: Option<Settings>) -> (r: Settings)
        ensures
            stored is Some ==> r == stored->0,
            stored is None ==> {
                &&& r.quality == QualitySetting::P1080p30
                &&& r.source == SourceSetting::Primary
                &&& r.include_cursor
                &&& r.audio.system && r.audio.microphone
                &&& r.profile == ProfileId::Work
                &&& r.recent@.len() == 0
                &&& !r.stream_enabled
                &&& r.stream_url@ == "rtsp://127.0.0.1:8554/live"@
                &&& r.output_dir@ == "LightCapture"@ || exists|base: Seq<char>|
                    joined_path(base, "LightCapture"@, r.output_dir@)
            },
    {
        match stored {
            Some(settings) => settings,
            None => Settings::default(),
        }
    }

    /// Records `path` as the newest recent recording, given which old entries are the same
    /// file as it (`same`, one flag per entry): it goes first, the flagged entries leave, the
    /// others keep their order, and the list keeps at most [`RECENT_MAX`] entries.
    pub fn push_recent_marked(&mut self, path: String, same: &[bool])
        requires
            same@.len() == old(self).recent@.len(),
        ensures
            texts_view(final(self).recent@) == recent_after(
                texts_view(old(self).recent@),
                path@,
                same@,
            ),
            final(self).quality == old(self).quality,
            final(self).source == old(self).source,
            final(self).output_dir == old(self).output_dir,
            final(self).include_cursor == old(self).include_cursor,
            final(self).audio == old(self).audio,
            final(self).profile == old(self).profile,
            final(self).stream_enabled == old(self).stream_enabled,
            final(self).stream_url == old(self).stream_url,
    {
        let ghost old_view = texts_view(self.recent@);
        let mut kept: Vec<String> = Vec::new();
        let mut i: usize = 0;
        let n = self.recent.len();
        while i < n
            invariant
                n == self.recent@.len(),
                n == same@.len(),
                old_view == texts_view(self.recent@),
                0 <= i <= n,
                texts_view(kept@) == unmarked(old_view.subrange(0, i as int), same@),
            decreases n - i,
        {
            let ghost before = texts_view(kept@);
            proof {
                let pre = old_view.subrange(0, i + 1);
                assert(pre.drop_last() =~= old_view.subrange(0, i as int));
                assert(pre.last() == self.recent@[i as int]@);
            }
            if !same[i] {
                kept.push(copy_string(&self.recent[i]));
                assert(texts_view(kept@) =~= before.push(self.recent@[i as int]@));
            }
            i = i + 1;
        }
        assert(old_view.subrange(0, n as int) =~= old_view);
        let ghost w = texts_view(kept@);
        let mut out: Vec<String> = Vec::new();
        out.push(path);
        let mut j: usize = 0;
        while j < kept.len() && out.len() < RECENT_MAX
            invariant
                w == texts_view(kept@),
                0 <= j <= kept@.len(),
                out@.len() == j + 1,
                out@.len() <= RECENT_MAX,
                texts_view(out@) == (seq![path@] + w).subrange(0, j + 1),
            decreases kept@.len() - j,
        {
            out.push(copy_string(&kept[j]));
            j = j + 1;
            assert(texts_view(out@) =~= (seq![path@] + w).subrange(0, j + 1));
        }
        proof {
            let all = seq![path@] + w;
            if all.len() > RECENT_MAX {
                assert(out@.len() == RECENT_MAX);
            } else {
                assert(all.subrange(0, j + 1) =~= all);
            }
        }
        self.recent = out;
    }

    /// Records `path` as the newest recent recording: it moves to the front, entries that are
    /// the same file leave, and the list keeps at most [`RECENT_MAX`] entries.
    pub fn push_recent(&mut self, path: String)
        ensures
            recent_pushed(texts_view(old(self).recent@), path@, texts_view(final(self).recent@)),
            plain_name(path@) && all_plain(texts_view(old(self).recent@)) ==> texts_view(
                final(self).recent@,
            ) == recent_after(
                texts_view(old(self).recent@),
                path@,
                text_marks(texts_view(old(self).recent@), path@),
            ),
            final(self).recent@.len() <= RECENT_MAX,
            final(self).recent@[0]@ == path@,
            no_duplicates(texts_view(old(self).recent@)) ==> no_duplicates(
                texts_view(final(self).recent@),
            ),
            final(self).quality == old(self).quality,
            final(self).source == old(self).source,
            final(self).output_dir == old(self).output_dir,
            final(self).include_cursor == old(self).include_cursor,
            final(self).audio == old(self).audio,
            final(self).profile == old(self).profile,
            final(self).stream_enabled == old(self).stream_enabled,
            final(self).stream_url == old(self).stream_url,
    {
        let ghost old_view = texts_view(self.recent@);
        let mut same: Vec<bool> = Vec::new();
        let mut i: usize = 0;
        while i < self.recent.len()
            invariant
                old_view == texts_view(self.recent@),
                0 <= i <= self.recent@.len(),
                same@.len() == i,
                forall|k: int| 0 <= k < i && old_view[k] == path@ ==> #[trigger] same@[k],
                forall|k: int|
                    0 <= k < i && plain_name(path@) && plain_name(old_view[k]) && old_view[k]
                        != path@ ==> !#[trigger] same@[k],
            decreases self.recent@.len() - i,
        {
            let flag = same_path(self.recent[i].as_str(), path.as_str());
            assert(self.recent@[i as int]@ == old_view[i as int]);
            same.push(flag);
            i = i + 1;
        }
        let ghost marks = same@;
        let ghost p = path@;
        self.push_recent_marked(path, same.as_slice());
        proof {
            let new = texts_view(self.recent@);
            assert(marks_same(old_view, p, marks));
            if plain_name(p) && all_plain(old_view) {
                assert(marks =~= text_marks(old_view, p));
            }
            lemma_unmarked_props(old_view, p, marks);
            let w = unmarked(old_view, marks);
            let all = seq![p] + w;
            assert(new.len() <= RECENT_MAX);
            assert(new[0] == all[0]);
            if no_duplicates(old_view) {
                assert forall|a: int, b: int| 0 <= a < b < new.len() implies new[a] != new[b] by {
                    assert(new[a] == all[a]);
                    assert(new[b] == all[b]);
                    if a == 0 {
                        assert(all[b] == w[b - 1]);
                    } else {
                        assert(all[a] == w[a - 1]);
                        assert(all[b] == w[b - 1]);
                    }
                }
            }
        }
    }
}

/// The default MediaMTX ingest URL.
pub fn default_stream_url() -> (r: String)
    ensures
        r@ == "rtsp://127.0.0.1:8554/live"@,
{
    to_owned_string("rtsp://127.0.0.1:8554/live")
}

impl Default for Settings {
    /// 1080p30, primary display, cursor shown, both audio sources, the Work profile, no recent
    /// files, streaming off to the default URL; recordings go to the user's videos folder.
    fn default() -> (r: Self)
        ensures
            r.quality == QualitySetting::P1080p30,
            r.source == SourceSetting::Primary,
            r.include_cursor,
            r.audio.system && r.audio.microphone,
            r.profile == ProfileId::Work,
            r.recent@.len() == 0,
            !r.stream_enabled,
            r.stream_url@ == "rtsp://127.0.0.1:8554/live"@,
            r.output_dir@ == "LightCapture"@ || exists|base: Seq<char>|
                joined_path(base, "LightCapture"@, r.output_dir@),
    {
        Settings {
            quality: QualitySetting::P1080p30,
            source: SourceSetting::Primary,
            output_dir: default_output_dir(),
            include_cursor: true,
            audio: AudioSetting::default(),
            profile: ProfileId::Work,
            recent: Vec::new(),
            stream_enabled: false,
            stream_url: default_stream_url(),
        }
    }
}

#[verifier::external_type_specification]
#[verifier::external_body]
pub struct ExBaseDirs(BaseDirs);

#[verifier::external_type_specification]
#[verifier::external_body]
pub struct ExUserDirs(UserDirs);

/// `directories::BaseDirs::new`: the platform's base directories, when a home directory can be
/// found. It reads the environment, so nothing is promised of the result.
#[verifier::external_body]
fn base_dirs_new() -> (r: Option<BaseDirs>) {
    BaseDirs::new()
}

/// `directories::BaseDirs::config_dir`, as text (lossily for a path that is not UTF-8). It
/// depends on the environment the value was read from, so nothing is promised of it.
#[verifier::external_body]
fn base_config_dir(base: &BaseDirs) -> (r: String) {
    base.config_dir().to_string_lossy().into_owned()
}

/// `directories::UserDirs::new`: the user's directories, when a home directory can be found.
/// It reads the environment, so nothing is promised of the result.
#[verifier::external_body]
fn user_dirs_new() -> (r: Option<UserDirs>) {
    UserDirs::new()
}

/// `directories::UserDirs::video_dir`, as text (lossily for a path that is not UTF-8). It
/// depends on the environment, so nothing is promised of it.
#[verifier::external_body]
fn user_video_dir(user: &UserDirs) -> (r: Option<String>) {
    user.video_dir().map(|p| p.to_string_lossy().into_owned())
}

/// `directories::UserDirs::home_dir`, as text (lossily for a path that is not UTF-8). It
/// depends on the environment, so nothing is promised of it.
#[verifier::external_body]
fn user_home_dir(user: &UserDirs) -> (r: String) {
    user.home_dir().to_string_lossy().into_owned()
}

/// Where the settings file goes, given the platform's config directory: `settings.json` in a
/// `LightCapture` folder there, or `lightcapture-settings.json` when there is none.
pub fn settings_path_in(config_dir: Option<String>) -> (r: String)
    ensures
        config_dir is None ==> r@ == "lightcapture-settings.json"@,
        config_dir matches Some(c) ==> exists|f: Seq<char>|
            joined_path(c@, "LightCapture"@, f) && joined_path(f, "settings.json"@, r@),
{
    match config_dir {
        Some(config) => {
            proof {
                lemma_plain_literals();
            }
            let dir = path_join(config.as_str(), "LightCapture");
            let r = path_join(dir.as_str(), "settings.json");
            assert(joined_path(config@, "LightCapture"@, dir@) && joined_path(
                dir@,
                "settings.json"@,
                r@,
            ));
            r
        },
        None => to_owned_string("lightcapture-settings.json"),
    }
}

/// `%APPDATA%\LightCapture\settings.json` (`settings.json` in a `LightCapture` folder of the
/// platform's config directory), or `lightcapture-settings.json` when there is no home
/// directory.
pub fn settings_path() -> (r: String)
    ensures
        r@ == "lightcapture-settings.json"@ || exists|config: Seq<char>, folder: Seq<char>|
            joined_path(config, "LightCapture"@, folder) && joined_path(
                folder,
                "settings.json"@,
                r@,
            ),
{
    let config = match base_dirs_new() {
        Some(base) => Some(base_config_dir(&base)),
        None => None,
    };
    settings_path_in(config)
}

/// The folder and file names the settings and recordings go under are plain path components.
proof fn lemma_plain_literals()
    ensures
        plain_name("LightCapture"@),
        plain_name("settings.json"@),
{
    reveal_strlit("LightCapture");
    reveal_strlit("settings.json");
    lemma_plain_alnum_dot("LightCapture"@);
    lemma_plain_alnum_dot("settings.json"@);
}

/// A name of ASCII letters, digits and dots that is not `.` or `..` is a plain path component.
proof fn lemma_plain_alnum_dot(s: Seq<char>)
    requires
        s.len() > 2,
        forall|i: int| 0 <= i < s.len() ==> is_ascii_alnum(#[trigger] s[i]) || s[i] == '.',
    ensures
        plain_name(s),
{
    assert(s != seq!['.'] && s != seq!['.', '.']) by {
        assert(seq!['.'].len() == 1 && seq!['.', '.'].len() == 2);
    }
}

/// The recordings folder, given the user's folders (the videos folder, if there is one, and
/// the home directory): `LightCapture` in the videos folder, else in the home directory, or a
/// relative `LightCapture` without a home directory.
pub fn output_dir_in(user: Option<(Option<String>, String)>) -> (r: String)
    ensures
        user is None ==> r@ == "LightCapture"@,
        user matches Some((Some(v), _)) ==> joined_path(v@, "LightCapture"@, r@),
        user matches Some((None, h)) ==> joined_path(h@, "LightCapture"@, r@),
{
    proof {
        lemma_plain_literals();
    }
    match user {
        Some((Some(videos), _)) => path_join(videos.as_str(), "LightCapture"),
        Some((None, home)) => path_join(home.as_str(), "LightCapture"),
        None => to_owned_string("LightCapture"),
    }
}

/// `Videos\LightCapture` in the user's folders, `LightCapture` in the home directory when
/// there is no videos folder, or a relative `LightCapture` without a home directory.
pub fn default_output_dir() -> (r: String)
    ensures
        r@ == "LightCapture"@ || exists|base: Seq<char>| joined_path(base, "LightCapture"@, r@),
{
    let user = match user_dirs_new() {
        Some(dirs) => Some((user_video_dir(&dirs), user_home_dir(&dirs))),
        None => None,
    };
    let ghost found = user;
    let r = output_dir_in(user);
    proof {
        if let Some((v, h)) = found {
            match v {
                Some(videos) => assert(joined_path(videos@, "LightCapture"@, r@)),
                None => assert(joined_path(h@, "LightCapture"@, r@)),
            }
        }
    }
    r
}

/// The frame rate a stored quality names: the number after its `p`.
pub open spec fn named_fps(q: QualitySetting) -> u32 {
    match q {
        QualitySetting::P720p24 => 24,
        QualitySetting::P720p30 | QualitySetting::P1080p30 => 30,
        QualitySetting::P1080p60 => 60,
    }
}

/// The picture height a stored quality names: the number before its `p`.
pub open spec fn named_height(q: QualitySetting) -> u32 {
    match q {
        QualitySetting::P720p24 | QualitySetting::P720p30 => 720,
        QualitySetting::P1080p30 | QualitySetting::P1080p60 => 1080,
    }
}

/// A stored quality becomes the engine preset it names: the preset records at the named frame
/// rate inside a 16:9 box of the named height. So the Game profile records at 60 fps.
pub proof fn lemma_quality_setting_names_preset(q: QualitySetting)
    ensures
        quality_fps(quality_of(q)) == named_fps(q),
        quality_box(quality_of(q)).1 == named_height(q),
        quality_box(quality_of(q)).0 * 9 == quality_box(quality_of(q)).1 * 16,
        quality_fps(quality_of(profile_quality(ProfileId::Game))) == 60,
{
}

} // verus!
