//! Tray menu ids and hotkeys, and the commands they stand for.
use vstd::prelude::*;

use crate::config::plain_name;
use crate::platform::CaptureDisplay;
use crate::settings::{AudioSetting, ProfileId, QualitySetting, Settings, SourceSetting};
use crate::text::{decimal, has_prefix, lemma_parse_decimal, parse_usize, parse_usize_str, push_decimal, str_eq, strip_prefix, to_owned_string};

verus! {

pub const ID_TOGGLE: &'static str = "toggle";
pub const ID_PAUSE: &'static str = "pause";
pub const ID_QUALITY_720_24: &'static str = "quality-720p24";
pub const ID_QUALITY_720: &'static str = "quality-720p30";
pub const ID_QUALITY_1080: &'static str = "quality-1080p30";
pub const ID_QUALITY_1080_60: &'static str = "quality-1080p60";
pub const ID_SOURCE_PRIMARY: &'static str = "source-primary";
pub const ID_SOURCE_FOREGROUND: &'static str = "source-foreground";
pub const ID_SOURCE_DISPLAY_PREFIX: &'static str = "source-display-";
pub const ID_OUTPUT_FOLDER: &'static str = "output-folder";
pub const ID_SHOW_CURSOR: &'static str = "show-cursor";
pub const ID_OPEN_FOLDER: &'static str = "open-folder";
pub const ID_EXIT: &'static str = "exit";
pub const ID_PROFILE_WORK: &'static str = "profile-work";
pub const ID_PROFILE_GAME: &'static str = "profile-game";
pub const ID_PROFILE_SILENT: &'static str = "profile-silent";
pub const ID_RECENT_OPEN_PREFIX: &'static str = "recent-open-";
pub const ID_RECENT_SHOW_PREFIX: &'static str = "recent-show-";
pub const ID_STREAM: &'static str = "stream";
pub const ID_STREAM_VIEW: &'static str = "stream-view";
pub const ID_SHOW_BAR: &'static str = "show-bar";

/// What the user asked for, from the menu, a hotkey or the recorder bar.
#[derive(Debug, Clone, PartialEq, Eq)]
pub enum Command {
    Toggle,
    Pause,
    Quality(QualitySetting),
    Source(SourceSetting),
    Profile(ProfileId),
    PickFolder,
    ToggleCursor,
    OpenFolder,
    OpenRecent(usize),
    ShowRecent(usize),
    ToggleStream,
    OpenStreamViewer,
    SetAudio(AudioSetting),
    ShowBar,
    Exit,
}

/// The command a fixed menu id stands for.
pub open spec fn fixed_command(id: Seq<char>) -> Option<Command> {
    if id == "toggle"@ {
        Some(Command::Toggle)
    } else if id == "pause"@ {
        Some(Command::Pause)
    } else if id == "quality-720p24"@ {
        Some(Command::Quality(QualitySetting::P720p24))
    } else if id == "quality-720p30"@ {
        Some(Command::Quality(QualitySetting::P720p30))
    } else if id == "quality-1080p30"@ {
        Some(Command::Quality(QualitySetting::P1080p30))
    } else if id == "quality-1080p60"@ {
        Some(Command::Quality(QualitySetting::P1080p60))
    } else if id == "source-primary"@ {
        Some(Command::Source(SourceSetting::Primary))
    } else if id == "source-foreground"@ {
        Some(Command::Source(SourceSetting::Foreground))
    } else if id == "output-folder"@ {
        Some(Command::PickFolder)
    } else if id == "show-cursor"@ {
        Some(Command::ToggleCursor)
    } else if id == "open-folder"@ {
        Some(Command::OpenFolder)
    } else if id == "exit"@ {
        Some(Command::Exit)
    } else if id == "profile-work"@ {
        Some(Command::Profile(ProfileId::Work))
    } else if id == "profile-game"@ {
        Some(Command::Profile(ProfileId::Game))
    } else if id == "profile-silent"@ {
        Some(Command::Profile(ProfileId::Silent))
    } else if id == "stream"@ {
        Some(Command::ToggleStream)
    } else if id == "stream-view"@ {
        Some(Command::OpenStreamViewer)
    } else if id == "show-bar"@ {
        Some(Command::ShowBar)
    } else {
        None
    }
}

/// `id` after `prefix`.
pub open spec fn after_prefix(id: Seq<char>, prefix: Seq<char>) -> Seq<char> {
    id.subrange(prefix.len() as int, id.len() as int)
}

/// Whether `r` is what the menu id `id` stands for: a fixed id's command; a display pick,
/// `source-display-N`, by one-based index with no id or name; `recent-open-N` and
/// `recent-show-N` for the N-th recent file; nothing for an unknown id or a bad number.
pub open spec fn menu_command(id: Seq<char>, r: Option<Command>) -> bool {
    if fixed_command(id) is Some {
        r == fixed_command(id)
    } else if has_prefix(id, "source-display-"@) {
        match parse_usize(after_prefix(id, "source-display-"@)) {
            Some(n) => r matches Some(Command::Source(SourceSetting::Display { index, id, name }))
                && index == n && id@.len() == 0 && name@.len() == 0,
            None => r is None,
        }
    } else if has_prefix(id, "recent-open-"@) {
        match parse_usize(after_prefix(id, "recent-open-"@)) {
            Some(n) => r == Some(Command::OpenRecent(n)),
            None => r is None,
        }
    } else if has_prefix(id, "recent-show-"@) {
        match parse_usize(after_prefix(id, "recent-show-"@)) {
            Some(n) => r == Some(Command::ShowRecent(n)),
            None => r is None,
        }
    } else {
        r is None
    }
}

fn parse_fixed(id: &str) -> (r: Option<Command>)
    ensures
        r == fixed_command(id@),
{
    if str_eq(id, "toggle") {
        Some(Command::Toggle)
    } else if str_eq(id, "pause") {
        Some(Command::Pause)
    } else if str_eq(id, "quality-720p24") {
        Some(Command::Quality(QualitySetting::P720p24))
    } else if str_eq(id, "quality-720p30") {
        Some(Command::Quality(QualitySetting::P720p30))
    } else if str_eq(id, "quality-1080p30") {
        Some(Command::Quality(QualitySetting::P1080p30))
    } else if str_eq(id, "quality-1080p60") {
        Some(Command::Quality(QualitySetting::P1080p60))
    } else if str_eq(id, "source-primary") {
        Some(Command::Source(SourceSetting::Primary))
    } else if str_eq(id, "source-foreground") {
        Some(Command::Source(SourceSetting::Foreground))
    } else if str_eq(id, "output-folder") {
        Some(Command::PickFolder)
    } else if str_eq(id, "show-cursor") {
        Some(Command::ToggleCursor)
    } else if str_eq(id, "open-folder") {
        Some(Command::OpenFolder)
    } else if str_eq(id, "exit") {
        Some(Command::Exit)
    } else if str_eq(id, "profile-work") {
        Some(Command::Profile(ProfileId::Work))
    } else if str_eq(id, "profile-game") {
        Some(Command::Profile(ProfileId::Game))
    } else if str_eq(id, "profile-silent") {
        Some(Command::Profile(ProfileId::Silent))
    } else if str_eq(id, "stream") {
        Some(Command::ToggleStream)
    } else if str_eq(id, "stream-view") {
        Some(Command::OpenStreamViewer)
    } else if str_eq(id, "show-bar") {
        Some(Command::ShowBar)
    } else {
        None
    }
}

/// The command a tray menu id stands for.
pub fn parse_menu_id(id: &str) -> (r: Option<Command>)
    ensures
        menu_command(id@, r),
{
    if let Some(c) = parse_fixed(id) {
        return Some(c);
    }
    if let Some(rest) = strip_prefix(id, "source-display-") {
        return match parse_usize_str(rest) {
            Some(index) => Some(
                Command::Source(SourceSetting::Display { index, id: String::new(), name: String::new() }),
            ),
            None => None,
        };
    }
    if let Some(rest) = strip_prefix(id, "recent-open-") {
        return match parse_usize_str(rest) {
            Some(n) => Some(Command::OpenRecent(n)),
            None => None,
        };
    }
    if let Some(rest) = strip_prefix(id, "recent-show-") {
        return match parse_usize_str(rest) {
            Some(n) => Some(Command::ShowRecent(n)),
            None => None,
        };
    }
    None
}

/// The command a registered hotkey stands for: record toggles, pause pauses.
pub fn parse_hotkey_id(id: u32, record_id: u32, pause_id: u32) -> (r: Option<Command>)
    ensures
        r == if id == record_id {
            Some(Command::Toggle)
        } else if id == pause_id {
            Some(Command::Pause)
        } else {
            None
        },
{
    if id == record_id {
        Some(Command::Toggle)
    } else if id == pause_id {
        Some(Command::Pause)
    } else {
        None
    }
}

/// Menu id of the display item with this one-based index.
pub fn display_item_id(index: usize) -> (r: String)
    ensures
        r@ == "source-display-"@ + decimal(index as nat),
{
    let mut s = to_owned_string("source-display-");
    push_decimal(&mut s, index as u64);
    s
}

/// Menu id of the "Open" item of the recent file at `index`.
pub fn recent_open_id(index: usize) -> (r: String)
    ensures
        r@ == "recent-open-"@ + decimal(index as nat),
{
    let mut s = to_owned_string("recent-open-");
    push_decimal(&mut s, index as u64);
    s
}

/// Menu id of the "Show in folder" item of the recent file at `index`.
pub fn recent_show_id(index: usize) -> (r: String)
    ensures
        r@ == "recent-show-"@ + decimal(index as nat),
{
    let mut s = to_owned_string("recent-show-");
    push_decimal(&mut s, index as u64);
    s
}

proof fn lemma_differs_at(l: Seq<char>, p: Seq<char>, k: int)
    requires
        0 <= k < p.len(),
        k < l.len(),
        l[k] != p[k],
    ensures
        !has_prefix(l, p),
{
    if has_prefix(l, p) {
        assert(l.subrange(0, p.len() as int)[k] == l[k]);
    }
}

/// No fixed menu id starts with one of the numbered prefixes.
proof fn lemma_fixed_ids_unprefixed(id: Seq<char>, p: Seq<char>)
    requires
        p == "source-display-"@ || p == "recent-open-"@ || p == "recent-show-"@,
        has_prefix(id, p),
    ensures
        fixed_command(id) is None,
{
    reveal_strlit("source-display-");
    reveal_strlit("recent-open-");
    reveal_strlit("recent-show-");
    reveal_strlit("toggle");
    reveal_strlit("pause");
    reveal_strlit("quality-720p24");
    reveal_strlit("quality-720p30");
    reveal_strlit("quality-1080p30");
    reveal_strlit("quality-1080p60");
    reveal_strlit("source-primary");
    reveal_strlit("source-foreground");
    reveal_strlit("output-folder");
    reveal_strlit("show-cursor");
    reveal_strlit("open-folder");
    reveal_strlit("exit");
    reveal_strlit("profile-work");
    reveal_strlit("profile-game");
    reveal_strlit("profile-silent");
    reveal_strlit("stream");
    reveal_strlit("stream-view");
    reveal_strlit("show-bar");
    if p == "source-display-"@ {
        lemma_differs_at("quality-1080p30"@, p, 0);
        lemma_differs_at("quality-1080p60"@, p, 0);
        lemma_differs_at("source-foreground"@, p, 7);
    } else {
        lemma_differs_at("quality-720p24"@, p, 0);
        lemma_differs_at("quality-720p30"@, p, 0);
        lemma_differs_at("quality-1080p30"@, p, 0);
        lemma_differs_at("quality-1080p60"@, p, 0);
        lemma_differs_at("source-primary"@, p, 0);
        lemma_differs_at("source-foreground"@, p, 0);
        lemma_differs_at("output-folder"@, p, 0);
        lemma_differs_at("profile-work"@, p, 0);
        lemma_differs_at("profile-game"@, p, 0);
        lemma_differs_at("profile-silent"@, p, 0);
    }
}

proof fn lemma_numbered_id(p: Seq<char>, index: usize)
    requires
        p == "source-display-"@ || p == "recent-open-"@ || p == "recent-show-"@,
    ensures
        has_prefix(p + decimal(index as nat), p),
        fixed_command(p + decimal(index as nat)) is None,
        parse_usize(after_prefix(p + decimal(index as nat), p)) == Some(index),
{
    let id = p + decimal(index as nat);
    assert(id.subrange(0, p.len() as int) =~= p);
    assert(after_prefix(id, p) =~= decimal(index as nat));
    lemma_fixed_ids_unprefixed(id, p);
    lemma_parse_decimal(index);
}

/// The id a display item is built with reads back as a pick of that display by index.
pub proof fn lemma_display_item_id_round_trip(index: usize, r: Option<Command>)
    requires
        menu_command("source-display-"@ + decimal(index as nat), r),
    ensures
        r matches Some(Command::Source(SourceSetting::Display { index: i, id, name })) && i == index
            && id@.len() == 0 && name@.len() == 0,
{
    lemma_numbered_id("source-display-"@, index);
}

/// The ids a recent file's items are built with read back as opening and showing that file.
pub proof fn lemma_recent_ids_round_trip(index: usize, open: Option<Command>, show: Option<Command>)
    requires
        menu_command("recent-open-"@ + decimal(index as nat), open),
        menu_command("recent-show-"@ + decimal(index as nat), show),
    ensures
        open == Some(Command::OpenRecent(index)),
        show == Some(Command::ShowRecent(index)),
{
    reveal_strlit("source-display-");
    reveal_strlit("recent-open-");
    reveal_strlit("recent-show-");
    lemma_numbered_id("recent-open-"@, index);
    lemma_numbered_id("recent-show-"@, index);
    let o = "recent-open-"@ + decimal(index as nat);
    let s = "recent-show-"@ + decimal(index as nat);
    lemma_differs_at(o, "source-display-"@, 0);
    lemma_differs_at(s, "source-display-"@, 0);
    lemma_differs_at(s, "recent-open-"@, 7);
}

/// Which check items of the tray menu are ticked.
#[derive(Debug, Clone, Copy, PartialEq, Eq, Structural)]
pub struct MenuChecks {
    pub quality_720p24: bool,
    pub quality_720p30: bool,
    pub quality_1080p30: bool,
    pub quality_1080p60: bool,
    pub source_primary: bool,
    pub source_foreground: bool,
    pub profile_work: bool,
    pub profile_game: bool,
    pub profile_silent: bool,
    pub cursor: bool,
    pub stream: bool,
}

/// The ticks that mirror the settings: the stored quality, source and profile, the cursor
/// and stream flags.
pub fn menu_checks(settings: &Settings) -> (r: MenuChecks)
    ensures
        r.quality_720p24 == (settings.quality == QualitySetting::P720p24),
        r.quality_720p30 == (settings.quality == QualitySetting::P720p30),
        r.quality_1080p30 == (settings.quality == QualitySetting::P1080p30),
        r.quality_1080p60 == (settings.quality == QualitySetting::P1080p60),
        r.source_primary == (settings.source is Primary),
        r.source_foreground == (settings.source is Foreground),
        r.profile_work == (settings.profile == ProfileId::Work),
        r.profile_game == (settings.profile == ProfileId::Game),
        r.profile_silent == (settings.profile == ProfileId::Silent),
        r.cursor == settings.include_cursor,
        r.stream == settings.stream_enabled,
{
    MenuChecks {
        quality_720p24: settings.quality == QualitySetting::P720p24,
        quality_720p30: settings.quality == QualitySetting::P720p30,
        quality_1080p30: settings.quality == QualitySetting::P1080p30,
        quality_1080p60: settings.quality == QualitySetting::P1080p60,
        source_primary: match settings.source {
            SourceSetting::Primary => true,
            _ => false,
        },
        source_foreground: match settings.source {
            SourceSetting::Foreground => true,
            _ => false,
        },
        profile_work: settings.profile == ProfileId::Work,
        profile_game: settings.profile == ProfileId::Game,
        profile_silent: settings.profile == ProfileId::Silent,
        cursor: settings.include_cursor,
        stream: settings.stream_enabled,
    }
}

/// Text of the start/stop menu item.
pub fn toggle_text(recording: bool) -> (r: &'static str)
    ensures
        r@ == if recording {
            "Stop recording"@
        } else {
            "Start recording"@
        },
{
    if recording {
        "Stop recording"
    } else {
        "Start recording"
    }
}

/// Whether the menu item of `display` is checked for the stored source: it matches by device
/// id, by name, or by index.
pub open spec fn display_checked_spec(source: SourceSetting, display: CaptureDisplay) -> bool {
    match source {
        SourceSetting::Display { id, index, name } => (id@.len() > 0 && id@ == display.device_id@)
            || (name@.len() > 0 && name@ == display.name@) || index == display.index,
        _ => false,
    }
}

/// Whether the menu item of `display` is checked for the stored source.
pub fn display_checked(source: &SourceSetting, display: &CaptureDisplay) -> (r: bool)
    ensures
        r == display_checked_spec(*source, *display),
{
    match source {
        SourceSetting::Display { id, index, name } => {
            (id.as_str().unicode_len() > 0 && str_eq(id.as_str(), display.device_id.as_str())) || (
            name.as_str().unicode_len() > 0 && str_eq(name.as_str(), display.name.as_str()))
                || *index == display.index
        },
        _ => false,
    }
}

/// `std::path::Path::file_name`, as text: the path's last component, none when it ends in `..`
/// or has no name (a root or an empty path). A path that is a single plain name is its own
/// file name; beyond that which characters separate components depends on the platform, so
/// no clause states more.
#[verifier::external_body]
fn file_name(path: &str) -> (r: Option<String>)
    ensures
        plain_name(path@) ==> r is Some && r->0@ == path@,
        r matches Some(n) ==> n@.len() > 0,
{
    std::path::Path::new(path).file_name().map(|n| n.to_string_lossy().into_owned())
}

/// The recent-menu label for a file name: the name, or `recording.mp4` without one.
pub fn recent_label_of(name: Option<String>) -> (r: String)
    ensures
        match name {
            Some(n) => r@ == n@,
            None => r@ == "recording.mp4"@,
        },
{
    match name {
        Some(n) => n,
        None => to_owned_string("recording.mp4"),
    }
}

/// The recent-menu label of a recording: its file name, or `recording.mp4` when the path has
/// none.
pub fn recent_label(path: &str) -> (r: String)
    ensures
        plain_name(path@) ==> r@ == path@,
        r@.len() > 0,
{
    proof {
        reveal_strlit("recording.mp4");
    }
    recent_label_of(file_name(path))
}


/// One recording in the tray's Recent submenu: its label and the ids of its "Open" and
/// "Show in folder" items.
#[derive(Debug, Clone, PartialEq, Eq)]
pub struct RecentEntry {
    pub label: String,
    pub open_id: String,
    pub show_id: String,
}

/// The Recent submenu: a disabled "No recent recordings" item when the list is empty, else one
/// entry per recording, newest first.
#[derive(Debug, Clone, PartialEq, Eq)]
pub enum RecentMenu {
    Empty,
    Files(Vec<RecentEntry>),
}

/// Id of the placeholder shown when there is no recent recording.
pub const ID_RECENT_EMPTY: &'static str = "recent-empty";

/// Label of the placeholder shown when there is no recent recording.
pub const RECENT_EMPTY_LABEL: &'static str = "No recent recordings";

/// Entry `i` of the Recent submenu for the recording at `path`.
pub open spec fn recent_entry_ok(e: RecentEntry, i: int, path: Seq<char>) -> bool {
    &&& e.open_id@ == "recent-open-"@ + decimal(i as nat)
    &&& e.show_id@ == "recent-show-"@ + decimal(i as nat)
    &&& e.label@.len() > 0
    &&& plain_name(path) ==> e.label@ == path
}

/// The Recent submenu for the recent recordings `recent`, in their order.
pub fn recent_items(recent: &[String]) -> (r: RecentMenu)
    ensures
        recent@.len() == 0 ==> r == RecentMenu::Empty,
        recent@.len() > 0 ==> (r matches RecentMenu::Files(entries) && entries@.len()
            == recent@.len() && forall|i: int|
            0 <= i < recent@.len() ==> recent_entry_ok(#[trigger] entries@[i], i, recent@[i]@)),
{
    if recent.len() == 0 {
        return RecentMenu::Empty;
    }
    let mut entries: Vec<RecentEntry> = Vec::new();
    let mut i: usize = 0;
    while i < recent.len()
        invariant
            0 <= i <= recent@.len(),
            entries@.len() == i,
            forall|k: int| 0 <= k < i ==> recent_entry_ok(#[trigger] entries@[k], k, recent@[k]@),
        decreases recent@.len() - i,
    {
        let entry = RecentEntry {
            label: recent_label(recent[i].as_str()),
            open_id: recent_open_id(i),
            show_id: recent_show_id(i),
        };
        entries.push(entry);
        i = i + 1;
    }
    RecentMenu::Files(entries)
}

} // verus!
