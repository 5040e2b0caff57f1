//! The tray app's decisions: what each command does to the settings and which outside action
//! it asks for, how a session is configured, and what a failed stop reports.
use vstd::prelude::*;

use crate::config::{AudioConfig, CaptureTarget, Quality, RecordConfig, TargetView};
use crate::error::{error_message, Error};
use crate::platform::CaptureDisplay;
use crate::settings::{
    profile_audio, profile_quality, quality_of, resolve_spec, AudioSetting, ProfileId,
    QualitySetting, Settings, SourceSetting, SourceView,
};
use crate::stream::{view_url, view_url_spec};
use crate::tray::Command;
use crate::text::{opt_text_view, push_str, texts_view, to_owned_string};
use crate::notify::{recording_kept, recording_saved, toast_xml_spec};
use crate::settings::recent_pushed;

verus! {

/// The outside action a command asks for, beyond its change to the settings.
#[derive(Debug, Clone, PartialEq, Eq)]
pub enum Effect {
    /// Nothing beyond the settings.
    Nothing,
    /// Start a session, or stop the running one.
    ToggleRecording,
    /// Pause or resume the running session (asked only while one runs).
    TogglePause,
    /// Stop any session and quit.
    Exit,
    /// Open the recordings folder.
    OpenFolder,
    /// Open this recording.
    OpenFile(String),
    /// Show this recording in its folder.
    ShowInFolder(String),
    /// Open this viewer page.
    OpenStreamViewer(String),
    /// Ask the user for a new recordings folder.
    PickFolder,
}

/// A command's outcome: its outside action, and whether the settings changed and must be saved.
pub struct Outcome {
    pub effect: Effect,
    pub persist: bool,
}

/// Whether a command changes a capture option, which is locked while recording.
pub open spec fn locked_while_recording(c: Command) -> bool {
    match c {
        Command::Quality(_) | Command::Source(_) | Command::PickFolder | Command::ToggleCursor
        | Command::Profile(_) | Command::SetAudio(_) => true,
        _ => false,
    }
}

/// `t` is `s` with at most the stream flag changed.
pub open spec fn same_but_stream(s: Settings, t: Settings) -> bool {
    &&& s.quality == t.quality
    &&& s.source == t.source
    &&& s.output_dir == t.output_dir
    &&& s.include_cursor == t.include_cursor
    &&& s.audio == t.audio
    &&& s.profile == t.profile
    &&& s.recent == t.recent
    &&& s.stream_url == t.stream_url
}

/// `t` is `s` with at most the source changed.
pub open spec fn same_but_source(s: Settings, t: Settings) -> bool {
    &&& s.quality == t.quality
    &&& s.output_dir == t.output_dir
    &&& s.include_cursor == t.include_cursor
    &&& s.audio == t.audio
    &&& s.profile == t.profile
    &&& s.recent == t.recent
    &&& s.stream_enabled == t.stream_enabled
    &&& s.stream_url == t.stream_url
}

/// Index of the first display with this one-based index, if any.
pub open spec fn first_with_index(displays: Seq<CaptureDisplay>, index: usize) -> Option<int> {
    if exists|i: int| 0 <= i < displays.len() && #[trigger] displays[i].index == index {
        Some(
            choose|k: int|
                0 <= k < displays.len() && #[trigger] displays[k].index == index && forall|j: int|
                    0 <= j < k ==> displays[j].index != index,
        )
    } else {
        None
    }
}

/// The stored source a pick from the menu becomes: a display pick takes the id and name of
/// the display with that index, when one is present.
pub open spec fn resolve_source_spec(s: SourceView, displays: Seq<CaptureDisplay>) -> SourceView {
    match s {
        SourceView::Display { index, .. } => match first_with_index(displays, index) {
            Some(k) => SourceView::Display {
                index,
                id: displays[k].device_id@,
                name: displays[k].name@,
            },
            None => SourceView::Display { index, id: Seq::empty(), name: Seq::empty() },
        },
        other => other,
    }
}

/// Position of the first display with this one-based index.
pub fn find_index(displays: &[CaptureDisplay], index: usize) -> (r: Option<usize>)
    ensures
        match first_with_index(displays@, index) {
            Some(k) => r is Some && r->0 as int == k,
            None => r is None,
        },
        r matches Some(k) ==> k < displays@.len() && displays@[k as int].index == index,
{
    let mut i: usize = 0;
    while i < displays.len()
        invariant
            0 <= i <= displays@.len(),
            forall|j: int| 0 <= j < i ==> displays@[j].index != index,
        decreases displays@.len() - i,
    {
        if displays[i].index == index {
            proof {
                let d = displays@;
                let k = choose|k: int|
                    0 <= k < d.len() && #[trigger] d[k].index == index && forall|j: int|
                        0 <= j < k ==> d[j].index != index;
                assert(d[i as int].index == index);
                if k < i {
                    assert(d[k].index != index);
                }
                if (i as int) < k {
                    assert(d[i as int].index != index);
                }
            }
            return Some(i);
        }
        i = i + 1;
    }
    None
}

/// The stored source for a menu pick, given the displays present now.
pub fn resolve_source(source: SourceSetting, displays: &[CaptureDisplay]) -> (r: SourceSetting)
    ensures
        r@ == resolve_source_spec(source@, displays@),
{
    match source {
        SourceSetting::Display { index, .. } => match find_index(displays, index) {
            Some(k) => SourceSetting::Display {
                index,
                id: to_owned_string(displays[k].device_id.as_str()),
                name: to_owned_string(displays[k].name.as_str()),
            },
            None => SourceSetting::Display { index, id: String::new(), name: String::new() },
        },
        other => other,
    }
}

/// What a command does: the settings it changes (capture options are locked while
/// recording; every change is saved) and the outside action it asks for.
pub fn apply_command(
    command: Command,
    settings: &mut Settings,
    recording: bool,
    displays: &[CaptureDisplay],
) -> (r: Outcome)
    ensures
        recording && locked_while_recording(command) ==> *final(settings) == *old(settings)
            && r.effect == Effect::Nothing && !r.persist,
        !recording || !locked_while_recording(command) ==> match command {
            Command::Toggle => *final(settings) == *old(settings) && r.effect
                == Effect::ToggleRecording && !r.persist,
            Command::Pause => *final(settings) == *old(settings) && r.effect == (if recording {
                Effect::TogglePause
            } else {
                Effect::Nothing
            }) && !r.persist,
            Command::Exit => *final(settings) == *old(settings) && r.effect == Effect::Exit
                && !r.persist,
            Command::OpenFolder => *final(settings) == *old(settings) && r.effect
                == Effect::OpenFolder && !r.persist,
            Command::OpenRecent(i) => *final(settings) == *old(settings) && !r.persist && if i
                < old(settings).recent@.len() {
                r.effect is OpenFile && r.effect->OpenFile_0@ == old(settings).recent@[i as int]@
            } else {
                r.effect == Effect::Nothing
            },
            Command::ShowRecent(i) => *final(settings) == *old(settings) && !r.persist && if i
                < old(settings).recent@.len() {
                r.effect is ShowInFolder && r.effect->ShowInFolder_0@ == old(
                    settings,
                ).recent@[i as int]@
            } else {
                r.effect == Effect::Nothing
            },
            Command::ToggleStream => final(settings).stream_enabled == !old(settings).stream_enabled
                && same_but_stream(*final(settings), *old(settings)) && r.effect == Effect::Nothing
                && r.persist,
            Command::OpenStreamViewer => *final(settings) == *old(settings) && !r.persist
                && r.effect is OpenStreamViewer && r.effect->OpenStreamViewer_0@ == view_url_spec(
                old(settings).stream_url@,
            ),
            Command::Quality(q) => *final(settings) == (Settings { quality: q, ..*old(settings) })
                && r.effect == Effect::Nothing && r.persist,
            Command::Source(s) => final(settings).source@ == resolve_source_spec(s@, displays@)
                && same_but_source(*final(settings), *old(settings)) && r.effect
                == Effect::Nothing && r.persist,
            Command::Profile(p) => final(settings).profile == p && final(settings).quality
                == profile_quality(p) && final(settings).audio == profile_audio(p)
                && crate::settings::same_but_profile(*final(settings), *old(settings)) && r.effect
                == Effect::Nothing && r.persist,
            Command::ToggleCursor => *final(settings) == (Settings {
                include_cursor: !old(settings).include_cursor,
                ..*old(settings)
            }) && r.effect == Effect::Nothing && r.persist,
            Command::PickFolder => *final(settings) == *old(settings) && r.effect
                == Effect::PickFolder && !r.persist,
            Command::SetAudio(a) => *final(settings) == (Settings { audio: a, ..*old(settings) })
                && r.effect == Effect::Nothing && r.persist,
            Command::ShowBar => *final(settings) == *old(settings) && r.effect == Effect::Nothing
                && !r.persist,
        },
{
    let locked = match &command {
        Command::Quality(_) | Command::Source(_) | Command::PickFolder | Command::ToggleCursor
        | Command::Profile(_) | Command::SetAudio(_) => true,
        _ => false,
    };
    if recording && locked {
        return Outcome { effect: Effect::Nothing, persist: false };
    }
    match command {
        Command::Toggle => Outcome { effect: Effect::ToggleRecording, persist: false },
        Command::Pause => Outcome {
            effect: if recording {
                Effect::TogglePause
            } else {
                Effect::Nothing
            },
            persist: false,
        },
        Command::Exit => Outcome { effect: Effect::Exit, persist: false },
        Command::OpenFolder => Outcome { effect: Effect::OpenFolder, persist: false },
        Command::OpenRecent(i) => {
            if i < settings.recent.len() {
                Outcome {
                    effect: Effect::OpenFile(to_owned_string(settings.recent[i].as_str())),
                    persist: false,
                }
            } else {
                Outcome { effect: Effect::Nothing, persist: false }
            }
        },
        Command::ShowRecent(i) => {
            if i < settings.recent.len() {
                Outcome {
                    effect: Effect::ShowInFolder(to_owned_string(settings.recent[i].as_str())),
                    persist: false,
                }
            } else {
                Outcome { effect: Effect::Nothing, persist: false }
            }
        },
        Command::ToggleStream => {
            settings.stream_enabled = !settings.stream_enabled;
            Outcome { effect: Effect::Nothing, persist: true }
        },
        Command::OpenStreamViewer => Outcome {
            effect: Effect::OpenStreamViewer(view_url(settings.stream_url.as_str())),
            persist: false,
        },
        Command::Quality(q) => {
            settings.quality = q;
            Outcome { effect: Effect::Nothing, persist: true }
        },
        Command::Source(s) => {
            settings.source = resolve_source(s, displays);
            Outcome { effect: Effect::Nothing, persist: true }
        },
        Command::Profile(p) => {
            p.apply(settings);
            Outcome { effect: Effect::Nothing, persist: true }
        },
        Command::ToggleCursor => {
            settings.include_cursor = !settings.include_cursor;
            Outcome { effect: Effect::Nothing, persist: true }
        },
        Command::PickFolder => Outcome { effect: Effect::PickFolder, persist: false },
        Command::SetAudio(a) => {
            settings.audio = a;
            Outcome { effect: Effect::Nothing, persist: true }
        },
        Command::ShowBar => Outcome { effect: Effect::Nothing, persist: false },
    }
}

/// The recording configuration the tray starts a session with: the stored source resolved
/// against the displays present now, the stored quality, cursor and audio, and `output`.
pub fn session_config(settings: &Settings, displays: &[CaptureDisplay], output: String) -> (r: RecordConfig)
    ensures
        r.target@ == resolve_spec(settings.source@, displays@),
        r.quality == quality_of(settings.quality),
        r.output@ == output@,
        r.include_cursor == settings.include_cursor,
        r.audio.system == settings.audio.system,
        r.audio.microphone == settings.audio.microphone,
{
    let mut config = RecordConfig::new(output);
    config.target = settings.source.resolve(displays);
    config.quality = Quality::from(settings.quality);
    config.include_cursor = settings.include_cursor;
    config.audio = AudioConfig::from(settings.audio);
    config
}

/// The status line for a stop that failed: a disk-full or lost-encoder stop that kept its
/// partial file names the file; anything else is the error's own message.
pub open spec fn failure_message_spec(err: Error, path: Seq<char>, kept: bool) -> Seq<char> {
    match err {
        Error::DiskFull if kept => "Disk full — kept "@ + path,
        Error::EncoderLost if kept => "Encoder lost — kept "@ + path,
        other => error_message(other),
    }
}

/// The status line for a stop that failed.
pub fn failure_message(err: &Error, path: &str, kept: bool) -> (r: String)
    ensures
        r@ == failure_message_spec(*err, path@, kept),
{
    match err {
        Error::DiskFull if kept => {
            let mut s = to_owned_string("Disk full — kept ");
            push_str(&mut s, path);
            s
        },
        Error::EncoderLost if kept => {
            let mut s = to_owned_string("Encoder lost — kept ");
            push_str(&mut s, path);
            s
        },
        other => other.message(),
    }
}

/// Toast headline for a stop that failed but kept a partial file.
pub open spec fn kept_title_spec(err: Error) -> Seq<char> {
    match err {
        Error::DiskFull => "Disk full — kept partial file"@,
        Error::EncoderLost => "Encoder lost — kept partial file"@,
        _ => "Recording stopped"@,
    }
}

/// Toast headline for a stop that failed but kept a partial file.
pub fn kept_title(err: &Error) -> (r: &'static str)
    ensures
        r@ == kept_title_spec(*err),
{
    match err {
        Error::DiskFull => "Disk full — kept partial file",
        Error::EncoderLost => "Encoder lost — kept partial file",
        _ => "Recording stopped",
    }
}

/// `t` is `s` with at most the recent list changed.
pub open spec fn same_but_recent(s: Settings, t: Settings) -> bool {
    &&& s.quality == t.quality
    &&& s.source == t.source
    &&& s.output_dir == t.output_dir
    &&& s.include_cursor == t.include_cursor
    &&& s.audio == t.audio
    &&& s.profile == t.profile
    &&& s.stream_enabled == t.stream_enabled
    &&& s.stream_url == t.stream_url
}

/// What the tray reports when a session ends.
pub struct Finish {
    /// The status line: none after a clean stop, the failure otherwise.
    pub error: Option<String>,
    /// The toast to show, if any.
    pub toast: Option<String>,
    /// The file to publish to the stream, when streaming is on and a file was left.
    pub publish: Option<String>,
}

/// Ends a session, given how stopping it went and, for a failed stop, whether its partial file
/// at `path` is still there: the file left behind becomes the newest recent recording, is
/// announced by a toast and is published when streaming is on; a failure sets the status line.
pub fn finish_recording(settings: &mut Settings, stopped: Result<String, Error>, path: &str, kept: bool) -> (r: Finish)
    ensures
        same_but_recent(*final(settings), *old(settings)),
        match stopped {
            Ok(saved) => {
                &&& recent_pushed(
                    texts_view(old(settings).recent@),
                    saved@,
                    texts_view(final(settings).recent@),
                )
                &&& r.error is None
                &&& opt_text_view(r.toast) == Some(toast_xml_spec("Saved recording"@, saved@))
                &&& opt_text_view(r.publish) == if old(settings).stream_enabled {
                    Some(saved@)
                } else {
                    None
                }
            },
            Err(e) => {
                &&& if kept {
                    recent_pushed(
                        texts_view(old(settings).recent@),
                        path@,
                        texts_view(final(settings).recent@),
                    )
                } else {
                    texts_view(final(settings).recent@) == texts_view(old(settings).recent@)
                }
                &&& opt_text_view(r.error) == Some(failure_message_spec(e, path@, kept))
                &&& opt_text_view(r.toast) == if kept {
                    Some(toast_xml_spec(kept_title_spec(e), path@))
                } else {
                    None
                }
                &&& opt_text_view(r.publish) == if kept && old(settings).stream_enabled {
                    Some(path@)
                } else {
                    None
                }
            },
        },
{
    match stopped {
        Ok(saved) => {
            settings.push_recent(to_owned_string(saved.as_str()));
            let toast = recording_saved(saved.as_str());
            let publish = if settings.stream_enabled {
                Some(saved)
            } else {
                None
            };
            Finish { error: None, toast: Some(toast), publish }
        },
        Err(err) => {
            if kept {
                settings.push_recent(to_owned_string(path));
            }
            let message = failure_message(&err, path, kept);
            let toast = if kept {
                Some(recording_kept(kept_title(&err), path))
            } else {
                None
            };
            let publish = if kept && settings.stream_enabled {
                Some(to_owned_string(path))
            } else {
                None
            };
            Finish { error: Some(message), toast, publish }
        },
    }
}

/// The command the tray loop sends itself when the running session has failed: a toggle,
/// which stops it.
pub fn stop_on_failure(recording: bool, failed: bool) -> (r: Option<Command>)
    ensures
        r == if recording && failed {
            Some(Command::Toggle)
        } else {
            None::<Command>
        },
{
    if recording && failed {
        Some(Command::Toggle)
    } else {
        None
    }
}


/// Completes "Output folder…": a folder the user picked becomes the recordings folder and the
/// settings must be saved; a cancelled dialog (`None`) changes nothing.
pub fn folder_picked(settings: &mut Settings, picked: Option<String>) -> (persist: bool)
    ensures
        match picked {
            Some(dir) => persist && *final(settings) == (Settings { output_dir: dir, ..*old(settings) }),
            None => !persist && *final(settings) == *old(settings),
        },
{
    match picked {
        Some(dir) => {
            settings.output_dir = dir;
            true
        },
        None => false,
    }
}

} // verus!
