use lightcapture::tray::{recent_label, recent_label_of};
use lightcapture::session::stop_on_failure;
use lightcapture::bar::{BarAction, RecorderBar, MODE_SCREEN, MODE_WINDOW};
use lightcapture::notify::{recording_kept, recording_saved, toast_xml};
use lightcapture::platform::{CaptureDisplay, CaptureWindow};
use lightcapture::settings::{AudioSetting, ProfileId, QualitySetting, Settings, SourceSetting};
use lightcapture::error::Error;
use lightcapture::session::{finish_recording, folder_picked};
use lightcapture::tray::{recent_items, Command, RecentEntry, RecentMenu, ID_RECENT_EMPTY, RECENT_EMPTY_LABEL};

fn display(index: usize, name: &str, id: &str) -> CaptureDisplay {
    CaptureDisplay {
        index,
        name: name.to_string(),
        device_id: id.to_string(),
        width: 1920,
        height: 1080,
    }
}

fn window(title: &str) -> CaptureWindow {
    CaptureWindow { title: title.to_string(), width: 800, height: 600 }
}

fn two_displays() -> Vec<CaptureDisplay> {
    vec![display(1, "Main", r"\\.\DISPLAY1"), display(2, "Office", r"\\.\DISPLAY2")]
}

#[test]
fn bar_queues_clicks_in_order_and_hands_them_out_once() {
    let mut bar = RecorderBar::new(two_displays());
    assert_eq!(bar.handle_command(104, MODE_SCREEN, 0, true, true), BarAction::Nothing);
    assert_eq!(bar.handle_command(105, MODE_SCREEN, 0, true, true), BarAction::Nothing);
    assert_eq!(bar.handle_command(103, MODE_SCREEN, 0, true, false), BarAction::Nothing);
    let taken = bar.take_commands();
    assert_eq!(
        taken,
        vec![
            Command::Toggle,
            Command::Pause,
            Command::SetAudio(AudioSetting { system: true, microphone: false }),
        ]
    );
    assert!(bar.take_commands().is_empty());
    assert_eq!(bar.displays.len(), 2);
}

#[test]
fn bar_ignores_notifications_while_suppressed() {
    let mut bar = RecorderBar::new(two_displays());
    bar.suppress = true;
    assert_eq!(bar.handle_command(104, MODE_SCREEN, 0, true, true), BarAction::Nothing);
    assert!(bar.take_commands().is_empty());
}

#[test]
fn bar_mode_switch_selects_first_entry() {
    let mut bar = RecorderBar::new(two_displays());
    let mode_changed = (1 << 16) | 100;
    assert_eq!(bar.handle_command(mode_changed, MODE_WINDOW, 2, true, true), BarAction::FillWindows);
    assert_eq!(bar.handle_command(mode_changed, MODE_SCREEN, 2, true, true), BarAction::FillScreens);
    assert_eq!(
        bar.take_commands(),
        vec![Command::Source(SourceSetting::Foreground), Command::Source(SourceSetting::Primary)]
    );
}

#[test]
fn bar_dropdown_refreshes_the_open_list() {
    let mut bar = RecorderBar::new(two_displays());
    let dropdown = (7 << 16) | 101;
    assert_eq!(bar.handle_command(dropdown, MODE_WINDOW, 0, true, true), BarAction::FillWindows);
    assert_eq!(bar.handle_command(dropdown, MODE_SCREEN, 0, true, true), BarAction::RelistDisplays);
    assert!(bar.take_commands().is_empty());
}

#[test]
fn bar_target_pick_queues_the_source() {
    let mut bar = RecorderBar::new(two_displays());
    bar.set_windows(&[window("Editor"), window("   "), window("Browser")]);
    let picked = (1 << 16) | 101;
    bar.handle_command(picked, MODE_SCREEN, 2, true, true);
    bar.handle_command(picked, MODE_WINDOW, 2, true, true);
    bar.handle_command(picked, MODE_WINDOW, 9, true, true);
    bar.handle_command(picked, MODE_SCREEN, 0, true, true);
    assert_eq!(
        bar.take_commands(),
        vec![
            Command::Source(SourceSetting::Display {
                index: 2,
                id: r"\\.\DISPLAY2".into(),
                name: "Office".into(),
            }),
            Command::Source(SourceSetting::Window { title: "Browser".into() }),
            Command::Source(SourceSetting::Primary),
        ]
    );
}

#[test]
fn bar_lists_non_blank_window_titles() {
    let mut bar = RecorderBar::new(Vec::new());
    bar.set_windows(&[window(""), window("Editor"), window(" \t"), window("Chat")]);
    assert_eq!(bar.window_titles, vec!["Editor".to_string(), "Chat".to_string()]);
    assert_eq!(
        bar.target_entries(false),
        vec!["Foreground window".to_string(), "Editor".to_string(), "Chat".to_string()]
    );
}

#[test]
fn bar_screen_entries_label_each_display() {
    let bar = RecorderBar::new(two_displays());
    assert_eq!(
        bar.target_entries(true),
        vec![
            "Primary".to_string(),
            "Main (1920×1080)".to_string(),
            "Office (1920×1080)".to_string(),
        ]
    );
}

#[test]
fn bar_selects_stored_sources() {
    let mut bar = RecorderBar::new(two_displays());
    bar.set_windows(&[window("Editor"), window("Chat")]);
    assert_eq!(bar.select_source(&SourceSetting::Primary), (MODE_SCREEN, 0));
    assert_eq!(bar.select_source(&SourceSetting::Foreground), (MODE_WINDOW, 0));
    let office = SourceSetting::Display { index: 9, id: String::new(), name: "Office".into() };
    assert_eq!(bar.select_source(&office), (MODE_SCREEN, 2));
    let gone = SourceSetting::Display { index: 9, id: "x".into(), name: "Gone".into() };
    assert_eq!(bar.select_source(&gone), (MODE_SCREEN, 0));
    assert_eq!(
        bar.select_source(&SourceSetting::Window { title: "Chat".into() }),
        (MODE_WINDOW, 2)
    );
    assert_eq!(bar.window_titles.len(), 2);
}

#[test]
fn bar_puts_an_unlisted_window_first() {
    let mut bar = RecorderBar::new(Vec::new());
    bar.set_windows(&[window("Editor")]);
    assert_eq!(
        bar.select_source(&SourceSetting::Window { title: "Closed".into() }),
        (MODE_WINDOW, 1)
    );
    assert_eq!(bar.window_titles, vec!["Closed".to_string(), "Editor".to_string()]);
}

#[test]
fn saved_and_kept_toasts_use_their_headlines() {
    assert_eq!(recording_saved("a.mp4"), toast_xml("Saved recording", "a.mp4"));
    assert_eq!(
        recording_kept("Disk full — kept partial file", "a&b.mp4"),
        toast_xml("Disk full — kept partial file", "a&b.mp4")
    );
    assert!(recording_kept("Recording stopped", "a&b.mp4").contains("a&amp;b.mp4"));
}

#[test]
fn load_keeps_stored_settings_or_falls_back_to_defaults() {
    let mut stored = Settings::default();
    stored.quality = QualitySetting::P720p24;
    stored.profile = ProfileId::Game;
    let loaded = Settings::load(Some(stored.clone()));
    assert_eq!(loaded, stored);
    let fallback = Settings::load(None);
    assert_eq!(fallback.quality, QualitySetting::P1080p30);
    assert_eq!(fallback.source, SourceSetting::Primary);
    assert!(fallback.recent.is_empty());
    assert_eq!(fallback.stream_url, "rtsp://127.0.0.1:8554/live");
}

#[test]
fn finish_saved_records_recent_toasts_and_publishes_when_streaming() {
    let mut settings = Settings::default();
    settings.stream_enabled = true;
    settings.recent = vec!["old.mp4".to_string()];
    let finish = finish_recording(&mut settings, Ok("new.mp4".to_string()), "new.mp4", true);
    assert!(finish.error.is_none());
    assert_eq!(finish.toast, Some(toast_xml("Saved recording", "new.mp4")));
    assert_eq!(finish.publish, Some("new.mp4".to_string()));
    assert_eq!(settings.recent, vec!["new.mp4".to_string(), "old.mp4".to_string()]);
}

#[test]
fn finish_failed_with_partial_file_names_it() {
    let mut settings = Settings::default();
    let finish = finish_recording(&mut settings, Err(Error::DiskFull), "part.mp4", true);
    assert_eq!(finish.error, Some("Disk full — kept part.mp4".to_string()));
    assert_eq!(finish.toast, Some(toast_xml("Disk full — kept partial file", "part.mp4")));
    assert!(finish.publish.is_none());
    assert_eq!(settings.recent, vec!["part.mp4".to_string()]);
}

#[test]
fn finish_failed_without_file_only_reports() {
    let mut settings = Settings::default();
    settings.stream_enabled = true;
    let finish = finish_recording(&mut settings, Err(Error::NoFrames), "none.mp4", false);
    assert_eq!(finish.error, Some("no frames were encoded".to_string()));
    assert!(finish.toast.is_none());
    assert!(finish.publish.is_none());
    assert!(settings.recent.is_empty());
}

#[test]
fn recent_labels_use_the_file_name() {
    assert_eq!(recent_label("clip.mp4"), "clip.mp4");
    assert_eq!(recent_label("videos/clip.mp4"), "clip.mp4");
    assert_eq!(recent_label(""), "recording.mp4");
    assert_eq!(recent_label("videos/.."), "recording.mp4");
    assert_eq!(recent_label_of(Some("a.mp4".to_string())), "a.mp4");
    assert_eq!(recent_label_of(None), "recording.mp4");
}

#[test]
fn failed_session_is_toggled_off() {
    assert_eq!(stop_on_failure(true, true), Some(Command::Toggle));
    assert_eq!(stop_on_failure(true, false), None);
    assert_eq!(stop_on_failure(false, true), None);
}

#[test]
fn recent_menu_lists_entries_or_placeholder() {
    assert_eq!(recent_items(&[]), RecentMenu::Empty);
    let menu = recent_items(&["new.mp4".to_string(), "videos/old.mp4".to_string()]);
    assert_eq!(
        menu,
        RecentMenu::Files(vec![
            RecentEntry {
                label: "new.mp4".into(),
                open_id: "recent-open-0".into(),
                show_id: "recent-show-0".into(),
            },
            RecentEntry {
                label: "old.mp4".into(),
                open_id: "recent-open-1".into(),
                show_id: "recent-show-1".into(),
            },
        ])
    );
    assert_eq!(ID_RECENT_EMPTY, "recent-empty");
    assert_eq!(RECENT_EMPTY_LABEL, "No recent recordings");
}

#[test]
fn push_recent_treats_equal_paths_as_one_file() {
    let mut settings = Settings::default();
    settings.push_recent("videos/a.mp4".to_string());
    settings.push_recent("b.mp4".to_string());
    settings.push_recent("videos//a.mp4".to_string());
    assert_eq!(settings.recent, vec!["videos//a.mp4".to_string(), "b.mp4".to_string()]);
}

#[test]
fn push_recent_marked_drops_flagged_entries() {
    let mut settings = Settings::default();
    settings.recent = vec!["x.mp4".into(), "y.mp4".into(), "z.mp4".into()];
    settings.push_recent_marked("w.mp4".to_string(), &[false, true, false]);
    assert_eq!(
        settings.recent,
        vec!["w.mp4".to_string(), "x.mp4".to_string(), "z.mp4".to_string()]
    );
}

#[test]
fn picked_folder_is_stored_and_saved() {
    let mut settings = Settings::default();
    let before = settings.clone();
    assert!(!folder_picked(&mut settings, None));
    assert_eq!(settings, before);
    assert!(folder_picked(&mut settings, Some("D:/Clips".to_string())));
    assert_eq!(settings.output_dir, "D:/Clips");
    assert_eq!(Settings { output_dir: before.output_dir.clone(), ..settings }, before);
}

#[test]
fn push_recent_keeps_different_plain_names() {
    let mut settings = Settings::default();
    for i in 0..12 {
        settings.push_recent(format!("f{i}.mp4"));
    }
    let expected: Vec<String> = (2..12).rev().map(|i| format!("f{i}.mp4")).collect();
    assert_eq!(settings.recent, expected);
    settings.push_recent("f5.mp4".to_string());
    let mut again = vec!["f5.mp4".to_string()];
    again.extend((2..12).rev().filter(|i| *i != 5).map(|i| format!("f{i}.mp4")));
    assert_eq!(settings.recent, again);
}
