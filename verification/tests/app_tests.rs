use lightcapture::config::{CaptureTarget, Quality};
use lightcapture::notify::{parse_toast_action, retain, toast_xml, xml_escape, ToastAction};
use lightcapture::platform::CaptureDisplay;
use lightcapture::settings::{
    AudioSetting, ProfileId, QualitySetting, Settings, SourceSetting, RECENT_MAX,
};
use lightcapture::stats::SessionStats;
use lightcapture::hardware::EncoderKind;
use lightcapture::status::{circle_rgba, display_label, format_elapsed, tooltip};
use lightcapture::tray::{
    display_checked, display_item_id, parse_hotkey_id, parse_menu_id, recent_open_id,
    recent_show_id, Command, ID_EXIT, ID_PAUSE, ID_PROFILE_GAME, ID_QUALITY_1080,
    ID_QUALITY_720_24, ID_SOURCE_PRIMARY, ID_STREAM, ID_STREAM_VIEW, ID_TOGGLE,
};

#[test]
fn escapes_xml_specials() {
    assert_eq!(xml_escape(r#"a&b<c>"#), "a&amp;b&lt;c&gt;");
}

#[test]
fn toast_xml_has_open_and_show_actions() {
    let xml = toast_xml("Saved recording", r"C:\Videos\clip.mp4");
    assert!(xml.contains(r#"arguments="open""#));
    assert!(xml.contains(r#"arguments="show""#));
    assert!(xml.contains("Open"));
    assert!(xml.contains("Show in folder"));
    assert!(xml.contains("Saved recording"));
    assert!(xml.contains(r"C:\Videos\clip.mp4"));
}

#[test]
fn body_click_and_open_open_the_file() {
    assert_eq!(parse_toast_action(""), ToastAction::Open);
    assert_eq!(parse_toast_action("open"), ToastAction::Open);
    assert_eq!(parse_toast_action("show"), ToastAction::Show);
}

#[test]
fn xml_escape_quotes_and_live_toasts() {
    assert_eq!(xml_escape(r#"'"x"'"#), "&apos;&quot;x&quot;&apos;");
    assert!(toast_xml("a<b", "f").contains("a&lt;b"));
    let mut live = vec![1, 2, 3, 4];
    retain(&mut live, 5);
    assert_eq!(live, vec![2, 3, 4, 5]);
    let mut live = vec![1];
    retain(&mut live, 2);
    assert_eq!(live, vec![1, 2]);
}

#[test]
fn default_quality_is_1080p30() {
    let settings = Settings {
        output_dir: "out".to_string(),
        ..Settings::default()
    };
    assert_eq!(settings.quality, QualitySetting::P1080p30);
    assert!(settings.include_cursor);
    assert_eq!(settings.source, SourceSetting::Primary);
    assert_eq!(settings.profile, ProfileId::Work);
    assert!(settings.audio.system && settings.audio.microphone);
    assert_eq!(Quality::from(settings.quality).fps(), 30);
}

#[test]
fn source_maps_to_engine_target() {
    assert_eq!(
        SourceSetting::Primary.to_target(),
        CaptureTarget::PrimaryDisplay
    );
    assert_eq!(
        SourceSetting::Display {
            index: 2,
            id: String::new(),
            name: String::new()
        }
        .to_target(),
        CaptureTarget::DisplayIndex(2)
    );
    assert_eq!(
        SourceSetting::Display {
            index: 2,
            id: r"\\.\DISPLAY2".into(),
            name: "Office".into()
        }
        .to_target(),
        CaptureTarget::Display {
            id: r"\\.\DISPLAY2".into()
        }
    );
    assert_eq!(
        SourceSetting::Foreground.to_target(),
        CaptureTarget::ForegroundWindow
    );
}

#[test]
fn resolve_prefers_name_when_id_missing() {
    let displays = [CaptureDisplay {
        index: 2,
        name: "Office".into(),
        device_id: r"\\.\DISPLAY2".into(),
        width: 1920,
        height: 1080,
    }];
    let source = SourceSetting::Display {
        index: 1,
        id: r"\\.\DISPLAY9".into(),
        name: "Office".into(),
    };
    assert_eq!(
        source.resolve(&displays),
        CaptureTarget::Display {
            id: r"\\.\DISPLAY2".into()
        }
    );
}

#[test]
fn resolve_falls_back_by_order() {
    let displays = [CaptureDisplay {
        index: 1,
        name: "Home".into(),
        device_id: "A".into(),
        width: 1,
        height: 1,
    }];
    let by_id = SourceSetting::Display { index: 0, id: "A".into(), name: "X".into() };
    assert_eq!(by_id.resolve(&displays), CaptureTarget::Display { id: "A".into() });
    let by_index = SourceSetting::Display { index: 3, id: "Z".into(), name: "X".into() };
    assert_eq!(by_index.resolve(&displays), CaptureTarget::DisplayIndex(3));
    let stale_id = SourceSetting::Display { index: 0, id: "Z".into(), name: String::new() };
    assert_eq!(stale_id.resolve(&displays), CaptureTarget::Display { id: "Z".into() });
    let nothing = SourceSetting::Display { index: 0, id: String::new(), name: String::new() };
    assert_eq!(nothing.resolve(&displays), CaptureTarget::PrimaryDisplay);
    let window = SourceSetting::Window { title: "Figma".into() };
    assert_eq!(window.resolve(&displays), CaptureTarget::WindowTitle("Figma".into()));
}

#[test]
fn source_slugs() {
    let named = SourceSetting::Display { index: 2, id: "X".into(), name: "Office Monitor".into() };
    assert_eq!(named.source_slug(), "Office-Monitor");
    let id_only = SourceSetting::Display { index: 2, id: r"\\.\DISPLAY2".into(), name: "  ".into() };
    assert_eq!(id_only.source_slug(), "DISPLAY2");
    let bare = SourceSetting::Display { index: 2, id: String::new(), name: String::new() };
    assert_eq!(bare.source_slug(), "display2");
    assert_eq!(SourceSetting::Foreground.source_slug(), "foreground");
}

#[test]
fn game_profile_is_1080p60_system_only() {
    let mut settings = Settings::default();
    ProfileId::Game.apply(&mut settings);
    assert_eq!(settings.quality, QualitySetting::P1080p60);
    assert!(settings.audio.system);
    assert!(!settings.audio.microphone);
    ProfileId::Silent.apply(&mut settings);
    assert_eq!(settings.quality, QualitySetting::P720p30);
    assert!(!settings.audio.is_enabled());
}

#[test]
fn recent_is_newest_first_capped() {
    let mut settings = Settings::default();
    for i in 0..12 {
        settings.push_recent(format!("f{i}.mp4"));
    }
    assert_eq!(settings.recent.len(), RECENT_MAX);
    assert_eq!(settings.recent[0], "f11.mp4");
    settings.push_recent("f11.mp4".to_string());
    assert_eq!(
        settings
            .recent
            .iter()
            .filter(|p| std::path::Path::new(p.as_str()).file_name().unwrap() == "f11.mp4")
            .count(),
        1
    );
    assert_eq!(settings.recent[0], "f11.mp4");
}

#[test]
fn push_recent_moves_existing_to_front() {
    let mut settings = Settings::default();
    settings.push_recent("a".to_string());
    settings.push_recent("b".to_string());
    settings.push_recent("a".to_string());
    assert_eq!(settings.recent, vec!["a".to_string(), "b".to_string()]);
}

fn stats() -> SessionStats {
    SessionStats {
        frames_captured: 10,
        frames_encoded: 8,
        frames_dropped: 2,
        width: 1920,
        height: 1080,
        fps_target: 30,
        elapsed_secs: 4,
        audio_frames_sent: 0,
        audio_drops: 0,
        encoder: EncoderKind::Software,
        failure: None,
    }
}

#[test]
fn idle_tooltip() {
    assert_eq!(tooltip(None, None, true), "LightCapture — idle");
}

#[test]
fn recording_tooltip() {
    let text = tooltip(Some(&stats()), None, true);
    assert!(text.contains("4s"));
    assert!(text.contains("1920x1080"));
    assert!(text.contains("encoded 8"));
    assert!(text.contains("dropped 2"));
}

#[test]
fn error_tooltip_wins() {
    assert_eq!(
        tooltip(Some(&stats()), Some("encoder failed"), true),
        "LightCapture — encoder failed"
    );
}

#[test]
fn hotkey_unavailable_noted_when_idle() {
    assert!(tooltip(None, None, false).contains("hotkey unavailable"));
}

#[test]
fn recording_tooltip_exact() {
    assert_eq!(
        tooltip(Some(&stats()), None, false),
        "LightCapture — 4s  1920x1080  encoded 8  dropped 2  (hotkey unavailable)"
    );
}

#[test]
fn empty_display_name_uses_index() {
    let display = CaptureDisplay {
        index: 1,
        name: String::new(),
        device_id: String::new(),
        width: 1920,
        height: 1080,
    };
    assert_eq!(display_label(&display), "Display 1 (1920x1080)");
}

#[test]
fn named_display_keeps_title() {
    let display = CaptureDisplay {
        index: 2,
        name: "Office".into(),
        device_id: String::new(),
        width: 2560,
        height: 1440,
    };
    assert_eq!(display_label(&display), "Office (2560x1440)");
}

#[test]
fn elapsed_clock_and_icon() {
    assert_eq!(format_elapsed(0), "00:00");
    assert_eq!(format_elapsed(75_000_000_000), "01:15");
    assert_eq!(format_elapsed(6_000_500_000_000), "100:00");
    let rgba = circle_rgba(196, 48, 48);
    assert_eq!(rgba.len(), 32 * 32 * 4);
    let center = (15 * 32 + 15) * 4;
    assert_eq!(&rgba[center..center + 4], &[196, 48, 48, 255]);
    assert_eq!(&rgba[0..4], &[0, 0, 0, 0]);
}

#[test]
fn parses_fixed_ids() {
    assert_eq!(parse_menu_id(ID_TOGGLE), Some(Command::Toggle));
    assert_eq!(parse_menu_id(ID_PAUSE), Some(Command::Pause));
    assert_eq!(
        parse_menu_id(ID_QUALITY_1080),
        Some(Command::Quality(QualitySetting::P1080p30))
    );
    assert_eq!(
        parse_menu_id(ID_SOURCE_PRIMARY),
        Some(Command::Source(SourceSetting::Primary))
    );
    assert_eq!(parse_menu_id(ID_EXIT), Some(Command::Exit));
}

#[test]
fn maps_hotkey_ids() {
    assert_eq!(parse_hotkey_id(1, 1, 2), Some(Command::Toggle));
    assert_eq!(parse_hotkey_id(2, 1, 2), Some(Command::Pause));
    assert_eq!(parse_hotkey_id(9, 1, 2), None);
}

#[test]
fn parses_display_index() {
    assert_eq!(
        parse_menu_id("source-display-2"),
        Some(Command::Source(SourceSetting::Display {
            index: 2,
            id: String::new(),
            name: String::new()
        }))
    );
}

#[test]
fn parses_profile_and_recent() {
    assert_eq!(
        parse_menu_id(ID_PROFILE_GAME),
        Some(Command::Profile(ProfileId::Game))
    );
    assert_eq!(parse_menu_id("recent-open-0"), Some(Command::OpenRecent(0)));
    assert_eq!(parse_menu_id("recent-show-3"), Some(Command::ShowRecent(3)));
    assert_eq!(parse_menu_id(ID_STREAM), Some(Command::ToggleStream));
    assert_eq!(
        parse_menu_id(ID_STREAM_VIEW),
        Some(Command::OpenStreamViewer)
    );
    assert_eq!(
        parse_menu_id(ID_QUALITY_720_24),
        Some(Command::Quality(QualitySetting::P720p24))
    );
}

#[test]
fn unknown_id_is_none() {
    assert_eq!(parse_menu_id("nope"), None);
}

#[test]
fn menu_number_edge_cases() {
    assert_eq!(parse_menu_id("recent-open-+7"), Some(Command::OpenRecent(7)));
    assert_eq!(parse_menu_id("recent-open-"), None);
    assert_eq!(parse_menu_id("recent-show-x"), None);
    assert_eq!(parse_menu_id("source-display-99999999999999999999999"), None);
    assert_eq!(parse_menu_id(&display_item_id(4)), parse_menu_id("source-display-4"));
    assert_eq!(parse_menu_id(&recent_open_id(5)), Some(Command::OpenRecent(5)));
    assert_eq!(parse_menu_id(&recent_show_id(6)), Some(Command::ShowRecent(6)));
}

#[test]
fn display_items_check_the_stored_source() {
    let d = CaptureDisplay { index: 2, name: "Office".into(), device_id: "D2".into(), width: 1, height: 1 };
    assert!(display_checked(&SourceSetting::Display { index: 9, id: "D2".into(), name: String::new() }, &d));
    assert!(display_checked(&SourceSetting::Display { index: 9, id: String::new(), name: "Office".into() }, &d));
    assert!(display_checked(&SourceSetting::Display { index: 2, id: String::new(), name: String::new() }, &d));
    assert!(!display_checked(&SourceSetting::Display { index: 9, id: "X".into(), name: "Y".into() }, &d));
    assert!(!display_checked(&SourceSetting::Primary, &d));
    let _ = AudioSetting::default();
}
