//! The recorder bar's decisions: what a control message means, which source the combos
//! select, where the bar opens, and what its status line says.
use vstd::prelude::*;

use crate::platform::{CaptureDisplay, CaptureWindow};
use crate::settings::{AudioSetting, SourceSetting, SourceView};
use crate::text::{decimal, opt_text_view, push_decimal, push_str, str_eq, texts_view, to_owned_string, trim, trim_str};
use crate::tray::Command;

verus! {

pub const IDC_MODE: u32 = 100;
pub const IDC_TARGET: u32 = 101;
pub const IDC_SYSTEM: u32 = 102;
pub const IDC_MIC: u32 = 103;
pub const IDC_RECORD: u32 = 104;
pub const IDC_PAUSE: u32 = 105;
pub const IDC_STOP: u32 = 106;
pub const IDC_ELAPSED: u32 = 107;
pub const IDC_STATUS: u32 = 108;

/// Mode combo entry: capture a screen.
pub const MODE_SCREEN: i32 = 0;

/// Mode combo entry: capture a window.
pub const MODE_WINDOW: i32 = 1;

/// Button notification: clicked.
pub const BN_CLICKED: u32 = 0;

/// Combo notification: selection changed.
pub const CBN_SELCHANGE: u32 = 1;

/// Combo notification: list about to drop down.
pub const CBN_DROPDOWN: u32 = 7;

/// Bar width in pixels.
pub const BAR_WIDTH: i32 = 780;

/// What a control notification asks of the bar.
#[derive(Debug, Clone, Copy, PartialEq, Eq, Structural)]
pub enum BarEvent {
    /// Record or Stop was clicked.
    Toggle,
    /// Pause (or Resume) was clicked.
    Pause,
    /// A System or Mic checkbox was clicked.
    AudioChanged,
    /// Screen/Window was switched.
    ModeChanged,
    /// The target list is about to open: refresh it.
    TargetDropdown,
    /// A target was picked.
    TargetChanged,
    /// Anything else.
    Ignored,
}

/// The event for a control id and notification code.
pub open spec fn bar_event_spec(id: int, code: int) -> BarEvent {
    if (id == IDC_RECORD || id == IDC_STOP) && code == BN_CLICKED {
        BarEvent::Toggle
    } else if id == IDC_PAUSE && code == BN_CLICKED {
        BarEvent::Pause
    } else if (id == IDC_SYSTEM || id == IDC_MIC) && code == BN_CLICKED {
        BarEvent::AudioChanged
    } else if id == IDC_MODE && code == CBN_SELCHANGE {
        BarEvent::ModeChanged
    } else if id == IDC_TARGET && code == CBN_DROPDOWN {
        BarEvent::TargetDropdown
    } else if id == IDC_TARGET && code == CBN_SELCHANGE {
        BarEvent::TargetChanged
    } else {
        BarEvent::Ignored
    }
}

/// Decodes a `WM_COMMAND` parameter: the control id is its low 16 bits and the notification
/// code the next 16.
pub fn decode_command(wparam: usize) -> (r: BarEvent)
    ensures
        r == bar_event_spec(
            (wparam as int) % 0x10000,
            ((wparam as int) % 0x1_0000_0000) / 0x10000,
        ),
{
    let w = wparam as u64;
    let id: u64 = w % 0x10000;
    let code: u64 = (w % 0x1_0000_0000) / 0x10000;
    let id32 = id as u32;
    let code32 = code as u32;
    if (id32 == IDC_RECORD || id32 == IDC_STOP) && code32 == BN_CLICKED {
        BarEvent::Toggle
    } else if id32 == IDC_PAUSE && code32 == BN_CLICKED {
        BarEvent::Pause
    } else if (id32 == IDC_SYSTEM || id32 == IDC_MIC) && code32 == BN_CLICKED {
        BarEvent::AudioChanged
    } else if id32 == IDC_MODE && code32 == CBN_SELCHANGE {
        BarEvent::ModeChanged
    } else if id32 == IDC_TARGET && code32 == CBN_DROPDOWN {
        BarEvent::TargetDropdown
    } else if id32 == IDC_TARGET && code32 == CBN_SELCHANGE {
        BarEvent::TargetChanged
    } else {
        BarEvent::Ignored
    }
}

/// The source the two combos select: in screen mode entry 0 (or none) is the primary
/// display and entry `k` the `k`-th display; in window mode entry 0 (or none) is the
/// foreground window and entry `k` the `k`-th title; an entry past the lists selects nothing.
pub open spec fn selected_source_spec(
    mode: i32,
    target: i32,
    displays: Seq<CaptureDisplay>,
    titles: Seq<String>,
) -> Option<SourceView> {
    if mode == MODE_SCREEN {
        if target <= 0 {
            Some(SourceView::Primary)
        } else if target - 1 < displays.len() {
            let d = displays[target - 1];
            Some(SourceView::Display { index: d.index, id: d.device_id@, name: d.name@ })
        } else {
            None
        }
    } else {
        if target <= 0 {
            Some(SourceView::Foreground)
        } else if target - 1 < titles.len() {
            Some(SourceView::Window { title: titles[target - 1]@ })
        } else {
            None
        }
    }
}

/// The text of an optional source.
pub open spec fn opt_source_view(o: Option<SourceSetting>) -> Option<SourceView> {
    match o {
        Some(s) => Some(s@),
        None => None,
    }
}

/// The source the two combos select.
pub fn selected_source(mode: i32, target: i32, displays: &[CaptureDisplay], titles: &[String]) -> (r: Option<SourceSetting>)
    ensures
        opt_source_view(r) == selected_source_spec(mode, target, displays@, titles@),
{
    if mode == MODE_SCREEN {
        if target <= 0 {
            return Some(SourceSetting::Primary);
        }
        let k = (target - 1) as usize;
        if k < displays.len() {
            let d = &displays[k];
            Some(
                SourceSetting::Display {
                    index: d.index,
                    id: to_owned_string(d.device_id.as_str()),
                    name: to_owned_string(d.name.as_str()),
                },
            )
        } else {
            None
        }
    } else {
        if target <= 0 {
            return Some(SourceSetting::Foreground);
        }
        let k = (target - 1) as usize;
        if k < titles.len() {
            Some(SourceSetting::Window { title: to_owned_string(titles[k].as_str()) })
        } else {
            None
        }
    }
}

/// Whether `d` is the display a stored display source points at: same device id, same
/// name, or same index.
pub open spec fn display_matches(d: CaptureDisplay, id: Seq<char>, name: Seq<char>, index: usize) -> bool {
    (id.len() > 0 && d.device_id@ == id) || (name.len() > 0 && d.name@ == name) || d.index == index
}

/// The target combo entry for a stored display source: one past the first matching display,
/// or 0 (the primary display) when none matches.
pub fn display_entry(displays: &[CaptureDisplay], id: &str, name: &str, index: usize) -> (r: i32)
    requires
        displays@.len() < i32::MAX,
    ensures
        r == 0 ==> forall|j: int| 0 <= j < displays@.len() ==> !display_matches(
            #[trigger] displays@[j],
            id@,
            name@,
            index,
        ),
        r > 0 ==> r - 1 < displays@.len() && display_matches(displays@[r - 1], id@, name@, index)
            && forall|j: int| 0 <= j < r - 1 ==> !display_matches(
                #[trigger] displays@[j],
                id@,
                name@,
                index,
            ),
        r >= 0,
{
    let has_id = id.unicode_len() > 0;
    let has_name = name.unicode_len() > 0;
    let mut i: usize = 0;
    while i < displays.len()
        invariant
            displays@.len() < i32::MAX,
            has_id == (id@.len() > 0),
            has_name == (name@.len() > 0),
            0 <= i <= displays@.len(),
            forall|j: int| 0 <= j < i ==> !display_matches(#[trigger] displays@[j], id@, name@, index),
        decreases displays@.len() - i,
    {
        let d = &displays[i];
        if (has_id && str_eq(d.device_id.as_str(), id)) || (has_name && str_eq(d.name.as_str(), name))
            || d.index == index {
            return (i + 1) as i32;
        }
        i = i + 1;
    }
    0
}

/// The title's entry position among the listed windows, if it is listed.
pub fn title_position(titles: &[String], title: &str) -> (r: Option<usize>)
    ensures
        r matches Some(k) ==> k < titles@.len() && titles@[k as int]@ == title@ && forall|j: int|
            0 <= j < k ==> titles@[j]@ != title@,
        r is None ==> forall|j: int| 0 <= j < titles@.len() ==> titles@[j]@ != title@,
{
    let mut i: usize = 0;
    while i < titles.len()
        invariant
            0 <= i <= titles@.len(),
            forall|j: int| 0 <= j < i ==> titles@[j]@ != title@,
        decreases titles@.len() - i,
    {
        if str_eq(titles[i].as_str(), title) {
            return Some(i);
        }
        i = i + 1;
    }
    None
}

/// Where the bar opens: centred at the top of the work area (`ok`, with its left, top and
/// right edges), or centred on a screen `screen_w` wide at y = 12 when the work area is
/// unknown.
pub open spec fn bar_origin_spec(ok: bool, left: int, top: int, right: int, screen_w: int) -> (int, int) {
    if ok {
        let spare = right - left - BAR_WIDTH;
        (left + (if spare > 0 { spare } else { 0 }) / 2, top + 12)
    } else {
        let spare = screen_w - BAR_WIDTH;
        ((if spare > 0 { spare } else { 0 }) / 2, 12)
    }
}

/// Where the bar opens.
pub fn bar_origin(ok: bool, left: i32, top: i32, right: i32, screen_w: i32) -> (r: (i32, i32))
    requires
        ok ==> right - left <= i32::MAX && right - left - BAR_WIDTH >= i32::MIN && top + 12
            <= i32::MAX,
        !ok ==> screen_w - BAR_WIDTH >= i32::MIN,
    ensures
        (r.0 as int, r.1 as int) == bar_origin_spec(ok, left as int, top as int, right as int, screen_w as int),
{
    if ok {
        let spare = right - left - BAR_WIDTH;
        let half = (if spare > 0 {
            spare
        } else {
            0
        }) / 2;
        (left + half, top + 12)
    } else {
        let spare = screen_w - BAR_WIDTH;
        ((if spare > 0 {
            spare
        } else {
            0
        }) / 2, 12)
    }
}

/// The bar's status line when exclude-from-capture failed.
pub open spec fn exclude_failed_note() -> Seq<char> {
    "Toolbar may appear in the recording (exclude-from-capture failed)"@
}

/// The status line: the session's own status, else the capture-exclusion warning when that
/// failed, else nothing.
pub fn bar_status(status: Option<String>, exclude_failed: bool) -> (r: Option<String>)
    ensures
        opt_text_view(r) == match status {
            Some(s) => Some(s@),
            None => if exclude_failed {
                Some(exclude_failed_note())
            } else {
                None
            },
        },
{
    match status {
        Some(s) => Some(s),
        None => {
            if exclude_failed {
                Some(to_owned_string("Toolbar may appear in the recording (exclude-from-capture failed)"))
            } else {
                None
            }
        },
    }
}

/// Label of the pause button.
pub fn pause_label(paused: bool) -> (r: &'static str)
    ensures
        r@ == if paused {
            "Resume"@
        } else {
            "Pause"@
        },
{
    if paused {
        "Resume"
    } else {
        "Pause"
    }
}

/// Target combo label of a display: `{name} ({width}×{height})`.
pub open spec fn target_label_spec(d: CaptureDisplay) -> Seq<char> {
    d.name@ + " ("@ + decimal(d.width as nat) + "×"@ + decimal(d.height as nat) + ")"@
}

/// Target combo label of a display.
pub fn target_label(d: &CaptureDisplay) -> (r: String)
    ensures
        r@ == target_label_spec(*d),
{
    let mut s = to_owned_string(d.name.as_str());
    push_str(&mut s, " (");
    push_decimal(&mut s, d.width as u64);
    push_str(&mut s, "×");
    push_decimal(&mut s, d.height as u64);
    push_str(&mut s, ")");
    assert(s@ =~= target_label_spec(*d));
    s
}

/// What the bar shows of the session.
#[derive(Debug, Clone, PartialEq, Eq)]
pub struct BarView {
    pub recording: bool,
    pub paused: bool,
    /// Time since Record, in nanoseconds.
    pub elapsed: u64,
    pub status: Option<String>,
}

/// The window titles the target combo lists: the listed windows' titles that are not blank,
/// in order.
pub open spec fn listed_titles(ws: Seq<CaptureWindow>) -> Seq<Seq<char>>
    decreases ws.len(),
{
    if ws.len() == 0 {
        Seq::empty()
    } else {
        let rest = listed_titles(ws.drop_last());
        if trim(ws.last().title@).len() > 0 {
            rest.push(ws.last().title@)
        } else {
            rest
        }
    }
}

/// What the session loop does with the bar's controls after a notification.
#[derive(Debug, Clone, Copy, PartialEq, Eq, Structural)]
pub enum BarAction {
    /// Nothing to redraw.
    Nothing,
    /// Refill the target combo with the primary display and the known displays.
    FillScreens,
    /// List the windows again (`set_windows`) and refill the target combo with them.
    FillWindows,
    /// List the displays again and refill the target combo with them.
    RelistDisplays,
}

/// The recorder bar's own state: the displays and window titles its target combo lists, the
/// commands queued for the session loop, whether excluding the bar from capture failed, and
/// whether notifications are being ignored while the controls are refreshed.
pub struct RecorderBar {
    pub displays: Vec<CaptureDisplay>,
    pub window_titles: Vec<String>,
    pub commands: Vec<Command>,
    pub exclude_failed: bool,
    pub suppress: bool,
}

/// `new` is `old` with a source command for `v` appended.
pub open spec fn pushed_source(old: Seq<Command>, new: Seq<Command>, v: SourceView) -> bool {
    &&& new.len() == old.len() + 1
    &&& new.subrange(0, old.len() as int) == old
    &&& new.last() matches Command::Source(s) && s@ == v
}

/// The target combo's entries: the primary display then each display's label on the screen
/// side; the foreground window then each title on the window side.
pub open spec fn target_entries_spec(screen: bool, displays: Seq<CaptureDisplay>, titles: Seq<String>) -> Seq<Seq<char>> {
    if screen {
        seq!["Primary"@] + displays.map_values(|d: CaptureDisplay| target_label_spec(d))
    } else {
        seq!["Foreground window"@] + texts_view(titles)
    }
}

impl RecorderBar {
    /// A bar listing `displays`, with no window titles and no queued command.
    pub fn new(displays: Vec<CaptureDisplay>) -> (r: Self)
        ensures
            r.displays@ == displays@,
            r.window_titles@.len() == 0,
            r.commands@.len() == 0,
            !r.exclude_failed,
            !r.suppress,
    {
        RecorderBar {
            displays,
            window_titles: Vec::new(),
            commands: Vec::new(),
            exclude_failed: false,
            suppress: false,
        }
    }

    /// Hands out the queued commands in the order they came, leaving the queue empty.
    pub fn take_commands(&mut self) -> (r: Vec<Command>)
        ensures
            r@ == old(self).commands@,
            final(self).commands@.len() == 0,
            final(self).displays == old(self).displays,
            final(self).window_titles == old(self).window_titles,
            final(self).exclude_failed == old(self).exclude_failed,
            final(self).suppress == old(self).suppress,
    {
        let mut taken: Vec<Command> = Vec::new();
        std::mem::swap(&mut taken, &mut self.commands);
        taken
    }

    /// Replaces the listed window titles with the non-blank titles of `windows`.
    pub fn set_windows(&mut self, windows: &[CaptureWindow])
        ensures
            texts_view(final(self).window_titles@) == listed_titles(windows@),
            final(self).displays == old(self).displays,
            final(self).commands == old(self).commands,
            final(self).exclude_failed == old(self).exclude_failed,
            final(self).suppress == old(self).suppress,
    {
        let mut titles: Vec<String> = Vec::new();
        let mut i: usize = 0;
        while i < windows.len()
            invariant
                0 <= i <= windows@.len(),
                texts_view(titles@) == listed_titles(windows@.subrange(0, i as int)),
            decreases windows@.len() - i,
        {
            let title = windows[i].title.as_str();
            let ghost before = titles@;
            if trim_str(title).unicode_len() > 0 {
                titles.push(to_owned_string(title));
                assert(texts_view(titles@) =~= texts_view(before).push(title@));
            }
            assert(windows@.subrange(0, i + 1).drop_last() =~= windows@.subrange(0, i as int));
            i = i + 1;
        }
        assert(windows@.subrange(0, windows@.len() as int) =~= windows@);
        self.window_titles = titles;
    }

    /// Handles a control notification (`wparam` of `WM_COMMAND`), given the mode and target
    /// combos' selections and the two checkboxes: queues the command it stands for and says
    /// which list to refill. While the controls are being refreshed, notifications are ignored.
    pub fn handle_command(
        &mut self,
        wparam: usize,
        mode: i32,
        target: i32,
        system_checked: bool,
        mic_checked: bool,
    ) -> (r: BarAction)
        ensures
            final(self).displays == old(self).displays,
            final(self).window_titles == old(self).window_titles,
            final(self).exclude_failed == old(self).exclude_failed,
            final(self).suppress == old(self).suppress,
            old(self).suppress ==> r == BarAction::Nothing && final(self).commands@ == old(
                self,
            ).commands@,
            !old(self).suppress ==> match bar_event_spec(
                (wparam as int) % 0x10000,
                ((wparam as int) % 0x1_0000_0000) / 0x10000,
            ) {
                BarEvent::Toggle => r == BarAction::Nothing && final(self).commands@ == old(
                    self,
                ).commands@.push(Command::Toggle),
                BarEvent::Pause => r == BarAction::Nothing && final(self).commands@ == old(
                    self,
                ).commands@.push(Command::Pause),
                BarEvent::AudioChanged => r == BarAction::Nothing && final(self).commands@ == old(
                    self,
                ).commands@.push(
                    Command::SetAudio(AudioSetting { system: system_checked, microphone: mic_checked }),
                ),
                BarEvent::ModeChanged => if mode == MODE_SCREEN {
                    r == BarAction::FillScreens && final(self).commands@ == old(self).commands@.push(
                        Command::Source(SourceSetting::Primary),
                    )
                } else {
                    r == BarAction::FillWindows && final(self).commands@ == old(self).commands@.push(
                        Command::Source(SourceSetting::Foreground),
                    )
                },
                BarEvent::TargetDropdown => final(self).commands@ == old(self).commands@ && r == (
                if mode == MODE_WINDOW {
                    BarAction::FillWindows
                } else {
                    BarAction::RelistDisplays
                }),
                BarEvent::TargetChanged => r == BarAction::Nothing && match selected_source_spec(
                    mode,
                    target,
                    old(self).displays@,
                    old(self).window_titles@,
                ) {
                    Some(v) => pushed_source(old(self).commands@, final(self).commands@, v),
                    None => final(self).commands@ == old(self).commands@,
                },
                BarEvent::Ignored => r == BarAction::Nothing && final(self).commands@ == old(
                    self,
                ).commands@,
            },
    {
        if self.suppress {
            return BarAction::Nothing;
        }
        match decode_command(wparam) {
            BarEvent::Toggle => {
                self.commands.push(Command::Toggle);
                BarAction::Nothing
            },
            BarEvent::Pause => {
                self.commands.push(Command::Pause);
                BarAction::Nothing
            },
            BarEvent::AudioChanged => {
                self.commands.push(
                    Command::SetAudio(AudioSetting { system: system_checked, microphone: mic_checked }),
                );
                BarAction::Nothing
            },
            BarEvent::ModeChanged => {
                if mode == MODE_SCREEN {
                    self.commands.push(Command::Source(SourceSetting::Primary));
                    BarAction::FillScreens
                } else {
                    self.commands.push(Command::Source(SourceSetting::Foreground));
                    BarAction::FillWindows
                }
            },
            BarEvent::TargetDropdown => {
                if mode == MODE_WINDOW {
                    BarAction::FillWindows
                } else {
                    BarAction::RelistDisplays
                }
            },
            BarEvent::TargetChanged => {
                let picked = selected_source(
                    mode,
                    target,
                    self.displays.as_slice(),
                    self.window_titles.as_slice(),
                );
                if let Some(source) = picked {
                    let ghost before = self.commands@;
                    self.commands.push(Command::Source(source));
                    assert(self.commands@.subrange(0, before.len() as int) =~= before);
                }
                BarAction::Nothing
            },
            BarEvent::Ignored => BarAction::Nothing,
        }
    }

    /// Points the combos at a stored source, given fresh display and window lists: returns the
    /// mode and target entries to select. A window whose title is no longer listed is put at
    /// the top of the titles and selected.
    pub fn select_source(&mut self, source: &SourceSetting) -> (r: (i32, i32))
        requires
            old(self).displays@.len() < i32::MAX,
            old(self).window_titles@.len() < i32::MAX,
        ensures
            final(self).displays == old(self).displays,
            final(self).commands == old(self).commands,
            final(self).exclude_failed == old(self).exclude_failed,
            final(self).suppress == old(self).suppress,
            match source {
                SourceSetting::Primary => r == (MODE_SCREEN, 0i32) && final(self).window_titles
                    == old(self).window_titles,
                SourceSetting::Foreground => r == (MODE_WINDOW, 0i32) && final(self).window_titles
                    == old(self).window_titles,
                SourceSetting::Display { index, id, name } => r.0 == MODE_SCREEN
                    && final(self).window_titles == old(self).window_titles && (r.1 == 0
                    ==> forall|j: int|
                    0 <= j < old(self).displays@.len() ==> !display_matches(
                        #[trigger] old(self).displays@[j],
                        id@,
                        name@,
                        *index,
                    )) && (r.1 > 0 ==> r.1 - 1 < old(self).displays@.len() && display_matches(
                    old(self).displays@[r.1 - 1],
                    id@,
                    name@,
                    *index,
                ) && forall|j: int|
                    0 <= j < r.1 - 1 ==> !display_matches(
                        #[trigger] old(self).displays@[j],
                        id@,
                        name@,
                        *index,
                    )) && r.1 >= 0,
                SourceSetting::Window { title } => r.0 == MODE_WINDOW && if exists|j: int|
                    0 <= j < old(self).window_titles@.len() && #[trigger] old(
                        self,
                    ).window_titles@[j]@ == title@ {
                    final(self).window_titles == old(self).window_titles && 1 <= r.1 <= old(
                        self,
                    ).window_titles@.len() && old(self).window_titles@[r.1 - 1]@ == title@
                        && forall|j: int| 0 <= j < r.1 - 1 ==> old(self).window_titles@[j]@ != title@
                } else {
                    r.1 == 1 && texts_view(final(self).window_titles@) == seq![title@] + texts_view(
                        old(self).window_titles@,
                    )
                },
            },
    {
        match source {
            SourceSetting::Primary => (MODE_SCREEN, 0),
            SourceSetting::Foreground => (MODE_WINDOW, 0),
            SourceSetting::Display { index, id, name } => {
                let entry = display_entry(self.displays.as_slice(), id.as_str(), name.as_str(), *index);
                (MODE_SCREEN, entry)
            },
            SourceSetting::Window { title } => {
                match title_position(self.window_titles.as_slice(), title.as_str()) {
                    Some(k) => (MODE_WINDOW, (k + 1) as i32),
                    None => {
                        let ghost before = self.window_titles@;
                        let t = to_owned_string(title.as_str());
                        self.window_titles.insert(0, t);
                        assert(texts_view(self.window_titles@) =~= seq![title@] + texts_view(before));
                        (MODE_WINDOW, 1)
                    },
                }
            },
        }
    }

    /// The target combo's entries for the screen side or the window side.
    pub fn target_entries(&self, screen: bool) -> (r: Vec<String>)
        ensures
            texts_view(r@) == target_entries_spec(screen, self.displays@, self.window_titles@),
    {
        let mut out: Vec<String> = Vec::new();
        if screen {
            out.push(to_owned_string("Primary"));
            let ghost head = texts_view(out@);
            let mut i: usize = 0;
            while i < self.displays.len()
                invariant
                    0 <= i <= self.displays@.len(),
                    texts_view(out@) == head + self.displays@.subrange(0, i as int).map_values(
                        |d: CaptureDisplay| target_label_spec(d),
                    ),
                decreases self.displays@.len() - i,
            {
                let ghost prev = out@;
                let label = target_label(&self.displays[i]);
                out.push(label);
                assert(texts_view(out@) =~= texts_view(prev).push(label@));
                i = i + 1;
                assert(self.displays@.subrange(0, i as int).map_values(
                    |d: CaptureDisplay| target_label_spec(d),
                ) =~= self.displays@.subrange(0, i - 1).map_values(
                    |d: CaptureDisplay| target_label_spec(d),
                ).push(target_label_spec(self.displays@[i - 1])));
                assert(texts_view(out@) =~= head + self.displays@.subrange(0, i as int).map_values(
                    |d: CaptureDisplay| target_label_spec(d),
                ));
            }
            assert(self.displays@.subrange(0, self.displays@.len() as int) =~= self.displays@);
            assert(texts_view(out@) =~= target_entries_spec(screen, self.displays@, self.window_titles@));
        } else {
            out.push(to_owned_string("Foreground window"));
            let ghost head = texts_view(out@);
            let mut i: usize = 0;
            while i < self.window_titles.len()
                invariant
                    0 <= i <= self.window_titles@.len(),
                    texts_view(out@) == head + texts_view(self.window_titles@.subrange(0, i as int)),
                decreases self.window_titles@.len() - i,
            {
                let ghost prev = out@;
                let title = to_owned_string(self.window_titles[i].as_str());
                out.push(title);
                assert(texts_view(out@) =~= texts_view(prev).push(title@));
                i = i + 1;
                assert(texts_view(self.window_titles@.subrange(0, i as int)) =~= texts_view(
                    self.window_titles@.subrange(0, i - 1),
                ).push(self.window_titles@[i - 1]@));
                assert(texts_view(out@) =~= head + texts_view(self.window_titles@.subrange(0, i as int)));
            }
            assert(self.window_titles@.subrange(0, self.window_titles@.len() as int) =~= self.window_titles@);
            assert(texts_view(out@) =~= target_entries_spec(screen, self.displays@, self.window_titles@));
        }
        out
    }
}

} // verus!
