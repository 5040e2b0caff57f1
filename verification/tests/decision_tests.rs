use lightcapture::bar::{
    bar_origin, bar_status, decode_command, display_entry, pause_label, selected_source,
    title_position, BarEvent,
};
use lightcapture::capture::{
    admit_frame, check_target, hardware_info_from, pick_monitor, plan_session, window_dimension,
    window_entry, FrameAction,
};
use lightcapture::cli::{progress_line, should_stop, QualityArg, RecordArgs};
use lightcapture::config::{AudioConfig, CaptureTarget, Quality, RecordConfig};
use lightcapture::error::Error;
use lightcapture::frame_gate::FrameGate;
use lightcapture::hardware::EncoderKind;
use lightcapture::platform::{list_displays, list_windows, probe, start, CaptureDisplay, Recording};
use lightcapture::session::{
    apply_command, failure_message, kept_title, resolve_source, session_config, Effect,
};
use lightcapture::settings::{AudioSetting, ProfileId, QualitySetting, Settings, SourceSetting};
use lightcapture::stats::StatsInner;
use lightcapture::tray::Command;

fn display(index: usize, name: &str, id: &str) -> CaptureDisplay {
    CaptureDisplay { index, name: name.into(), device_id: id.into(), width: 1920, height: 1080 }
}

fn settings() -> Settings {
    Settings { output_dir: "out".to_string(), ..Settings::default() }
}

#[test]
fn commands_change_settings_when_idle() {
    let displays = [display(2, "Office", "D2")];
    let mut s = settings();
    let o = apply_command(Command::Quality(QualitySetting::P720p24), &mut s, false, &displays);
    assert!(o.persist && o.effect == Effect::Nothing);
    assert_eq!(s.quality, QualitySetting::P720p24);
    let o = apply_command(Command::Source(SourceSetting::Display { index: 2, id: String::new(), name: String::new() }), &mut s, false, &displays);
    assert!(o.persist);
    assert_eq!(s.source, SourceSetting::Display { index: 2, id: "D2".into(), name: "Office".into() });
    apply_command(Command::ToggleCursor, &mut s, false, &displays);
    assert!(!s.include_cursor);
    apply_command(Command::SetAudio(AudioSetting { system: false, microphone: true }), &mut s, false, &displays);
    assert!(!s.audio.system && s.audio.microphone);
    apply_command(Command::Profile(ProfileId::Game), &mut s, false, &displays);
    assert_eq!(s.quality, QualitySetting::P1080p60);
    apply_command(Command::ToggleStream, &mut s, false, &displays);
    assert!(s.stream_enabled);
}

#[test]
fn capture_options_locked_while_recording() {
    let mut s = settings();
    let before = s.clone();
    let o = apply_command(Command::Quality(QualitySetting::P720p24), &mut s, true, &[]);
    assert!(!o.persist && o.effect == Effect::Nothing);
    let o = apply_command(Command::PickFolder, &mut s, true, &[]);
    assert_eq!(o.effect, Effect::Nothing);
    assert_eq!(s, before);
    let o = apply_command(Command::ToggleStream, &mut s, true, &[]);
    assert!(o.persist && s.stream_enabled);
}

#[test]
fn commands_ask_for_outside_actions() {
    let mut s = settings();
    s.push_recent("a.mp4".to_string());
    assert_eq!(apply_command(Command::Toggle, &mut s, true, &[]).effect, Effect::ToggleRecording);
    assert_eq!(apply_command(Command::Pause, &mut s, true, &[]).effect, Effect::TogglePause);
    assert_eq!(apply_command(Command::Pause, &mut s, false, &[]).effect, Effect::Nothing);
    assert_eq!(apply_command(Command::Exit, &mut s, false, &[]).effect, Effect::Exit);
    assert_eq!(apply_command(Command::OpenRecent(0), &mut s, false, &[]).effect, Effect::OpenFile("a.mp4".into()));
    assert_eq!(apply_command(Command::ShowRecent(0), &mut s, false, &[]).effect, Effect::ShowInFolder("a.mp4".into()));
    assert_eq!(apply_command(Command::OpenRecent(5), &mut s, false, &[]).effect, Effect::Nothing);
    assert_eq!(
        apply_command(Command::OpenStreamViewer, &mut s, false, &[]).effect,
        Effect::OpenStreamViewer("http://127.0.0.1:8888/live".into())
    );
    assert_eq!(apply_command(Command::PickFolder, &mut s, false, &[]).effect, Effect::PickFolder);
}

#[test]
fn resolve_source_without_display_clears_names() {
    let r = resolve_source(SourceSetting::Display { index: 7, id: "x".into(), name: "y".into() }, &[]);
    assert_eq!(r, SourceSetting::Display { index: 7, id: String::new(), name: String::new() });
    assert_eq!(resolve_source(SourceSetting::Foreground, &[]), SourceSetting::Foreground);
}

#[test]
fn session_config_from_settings() {
    let mut s = settings();
    s.quality = QualitySetting::P720p30;
    s.include_cursor = false;
    s.audio = AudioSetting { system: true, microphone: false };
    let c = session_config(&s, &[], "x.mp4".to_string());
    assert_eq!(c.target, CaptureTarget::PrimaryDisplay);
    assert_eq!(c.quality, Quality::P720p30);
    assert_eq!(c.output, "x.mp4");
    assert!(!c.include_cursor);
    assert_eq!(c.audio, AudioConfig { system: true, microphone: false });
}

#[test]
fn failure_messages() {
    assert_eq!(failure_message(&Error::DiskFull, "a.mp4", true), "Disk full — kept a.mp4");
    assert_eq!(failure_message(&Error::EncoderLost, "a.mp4", true), "Encoder lost — kept a.mp4");
    assert_eq!(failure_message(&Error::DiskFull, "a.mp4", false), "the disk is full");
    assert_eq!(failure_message(&Error::NoFrames, "a.mp4", true), "no frames were encoded");
    assert_eq!(kept_title(&Error::DiskFull), "Disk full — kept partial file");
    assert_eq!(kept_title(&Error::Stopped), "Recording stopped");
    assert_eq!(Error::TargetNotFound("x".into()).message(), "capture target not found: x");
}

#[test]
fn cli_arguments_configure_the_session() {
    let args = RecordArgs {
        output: None,
        display: Some(2),
        window: Some("Figma".into()),
        foreground: false,
        quality: QualityArg::P720p24,
        stream_url: None,
        duration: Some(10),
        no_cursor: true,
        no_system_audio: true,
        no_mic: false,
    };
    assert_eq!(args.target(), CaptureTarget::WindowTitle("Figma".into()));
    let c = args.record_config("o.mp4".to_string());
    assert_eq!(c.quality, Quality::P720p24);
    assert!(!c.include_cursor);
    assert_eq!(c.audio, AudioConfig { system: false, microphone: true });
    let fg = RecordArgs { foreground: true, ..args.clone() };
    assert_eq!(fg.target(), CaptureTarget::ForegroundWindow);
    let disp = RecordArgs { window: None, ..args.clone() };
    assert_eq!(disp.target(), CaptureTarget::DisplayIndex(2));
    let defaulted = RecordArgs { output: None, ..args.clone() };
    let path = defaulted.output_or_default();
    let secs = path
        .strip_prefix("./lightcapture-")
        .and_then(|rest| rest.strip_suffix(".mp4"))
        .expect("default name");
    assert!(!secs.is_empty() && secs.chars().all(|c| c.is_ascii_digit()));
    assert!(secs.parse::<u64>().expect("seconds") > 1_600_000_000);
    let given = RecordArgs { output: Some("given.mp4".into()), ..args };
    assert_eq!(given.output_or_default(), "given.mp4");
}

#[test]
fn cli_loop_and_progress() {
    assert!(should_stop(false, 0, None, false));
    assert!(should_stop(true, 10_000_000_000, Some(10), false));
    assert!(!should_stop(true, 9_999_999_999, Some(10), false));
    assert!(should_stop(true, 0, None, true));
    assert!(!should_stop(true, u64::MAX, Some(u64::MAX), false));
    let mut inner = StatsInner::new(30, EncoderKind::NvidiaNvenc, 0);
    inner.frames_encoded = 8;
    inner.frames_captured = 11;
    inner.width = 1280;
    inner.height = 720;
    let snap = inner.snapshot(5_000_000_000);
    assert_eq!(
        progress_line(&snap),
        "\r  5s  1280x720  NVIDIA NVENC  30fps  encoded 8  dropped 0  captured 11"
    );
}

#[test]
fn probe_report_dedupes_gpus() {
    let info = hardware_info_from(
        &[display(1, "Main", "D1")],
        &["Intel UHD".into(), "".into(), "NVIDIA RTX".into(), "Intel UHD".into()],
    );
    assert_eq!(info.displays, vec!["Main (1920x1080)".to_string()]);
    assert_eq!(info.encoder_names, vec!["Intel UHD".to_string(), "NVIDIA RTX".to_string()]);
    assert_eq!(info.selected, EncoderKind::NvidiaNvenc);
    assert_eq!(hardware_info_from(&[], &[]).selected, EncoderKind::Software);
}

#[test]
fn window_and_monitor_choices() {
    assert!(window_entry(true, Some("  ".into()), 5, 5).is_none());
    assert!(window_entry(false, Some("A".into()), 5, 5).is_none());
    let w = window_entry(true, Some("A".into()), -3, 7).unwrap();
    assert_eq!((w.width, w.height), (0, 7));
    assert_eq!(window_dimension(1919), 1918);
    assert_eq!(window_dimension(-5), 0);
    assert!(matches!(check_target(&CaptureTarget::DisplayIndex(0)), Err(Error::InvalidTarget(_))));
    assert!(check_target(&CaptureTarget::DisplayIndex(1)).is_ok());
    let devices = [Some("D1".to_string()), None, Some("D3".to_string())];
    let names = [Some("Office".to_string()), Some("D3".to_string()), None];
    assert_eq!(pick_monitor(&devices, &names, "D3"), Ok(2));
    assert_eq!(pick_monitor(&devices, &names, "Office"), Ok(0));
    assert_eq!(pick_monitor(&devices, &names, "X"), Err(Error::TargetNotFound("X".into())));
}

#[test]
fn session_plans() {
    let mut config = RecordConfig::new("o.mp4".into());
    assert!(matches!(plan_session(&config, 8, 600), Err(Error::InvalidTarget(_))));
    let plan = plan_session(&config, 3840, 2160).unwrap();
    assert_eq!((plan.encode_width, plan.encode_height, plan.fps), (1920, 1080, 30));
    assert_eq!(plan.bitrate, 6_220_800);
    assert_eq!(plan.interval_ms, 10);
    config.audio = AudioConfig::none();
    config.quality = Quality::P1080p60;
    assert_eq!(plan_session(&config, 1280, 720).unwrap().interval_ms, 16);
}

#[test]
fn frames_through_the_gate() {
    let mut gate = FrameGate::recording(30);
    let mut stats = StatsInner::new(30, EncoderKind::Software, 0);
    assert_eq!(admit_frame(&mut gate, &mut stats, true, 0), FrameAction::Skip);
    assert_eq!(admit_frame(&mut gate, &mut stats, false, 0), FrameAction::Encode);
    assert_eq!(admit_frame(&mut gate, &mut stats, false, 1), FrameAction::Drop);
    assert_eq!(stats.frames_captured, 3);
    assert_eq!(stats.frames_dropped, 1);
}

#[test]
fn bar_decisions() {
    assert_eq!(decode_command(104), BarEvent::Toggle);
    assert_eq!(decode_command(106), BarEvent::Toggle);
    assert_eq!(decode_command(105), BarEvent::Pause);
    assert_eq!(decode_command(103), BarEvent::AudioChanged);
    assert_eq!(decode_command((1 << 16) | 100), BarEvent::ModeChanged);
    assert_eq!(decode_command((7 << 16) | 101), BarEvent::TargetDropdown);
    assert_eq!(decode_command((1 << 16) | 101), BarEvent::TargetChanged);
    assert_eq!(decode_command((1 << 16) | 104), BarEvent::Ignored);
    let displays = [display(1, "A", "D1"), display(2, "B", "D2")];
    let titles = ["Figma".to_string()];
    assert_eq!(selected_source(0, 0, &displays, &titles), Some(SourceSetting::Primary));
    assert_eq!(
        selected_source(0, 2, &displays, &titles),
        Some(SourceSetting::Display { index: 2, id: "D2".into(), name: "B".into() })
    );
    assert_eq!(selected_source(0, 3, &displays, &titles), None);
    assert_eq!(selected_source(1, -1, &displays, &titles), Some(SourceSetting::Foreground));
    assert_eq!(selected_source(1, 1, &displays, &titles), Some(SourceSetting::Window { title: "Figma".into() }));
    assert_eq!(display_entry(&displays, "", "B", 9), 2);
    assert_eq!(display_entry(&displays, "", "", 9), 0);
    assert_eq!(title_position(&titles, "Figma"), Some(0));
    assert_eq!(title_position(&titles, "Nope"), None);
    assert_eq!(bar_origin(true, 0, 0, 1920, 0), (570, 12));
    assert_eq!(bar_origin(false, 0, 0, 0, 500), (0, 12));
    assert_eq!(bar_origin(true, 2_000_000_000, 5, 2_100_000_000, 0), (2_049_999_610, 17));
    assert_eq!(bar_status(None, true).unwrap(), "Toolbar may appear in the recording (exclude-from-capture failed)");
    assert_eq!(bar_status(Some("x".into()), true).unwrap(), "x");
    assert_eq!(bar_status(None, false), None);
    assert_eq!(pause_label(true), "Resume");
}

#[test]
fn stub_platform_and_recording_stop() {
    assert_eq!(probe().unwrap().selected, EncoderKind::Software);
    assert_eq!(list_displays(), Err(Error::UnsupportedPlatform));
    assert_eq!(list_windows(), Err(Error::UnsupportedPlatform));
    assert!(matches!(start(RecordConfig::new("o.mp4".into())), Err(Error::UnsupportedPlatform)));
    let mut rec = Recording { output: "o.mp4".into(), stats: StatsInner::new(30, EncoderKind::Software, 0), paused: false };
    rec.set_paused(true);
    assert!(rec.is_paused());
    assert_eq!(rec.output(), "o.mp4");
    assert_eq!(rec.stop(Ok(())), Err(Error::NoFrames));
    let mut stats = StatsInner::new(30, EncoderKind::Software, 0);
    stats.frames_encoded = 3;
    let rec = Recording { output: "o.mp4".into(), stats, paused: false };
    assert_eq!(rec.stop(Ok(())), Ok("o.mp4".to_string()));
    let rec = Recording { output: "o.mp4".into(), stats: StatsInner::new(30, EncoderKind::Software, 0), paused: false };
    assert_eq!(rec.stop(Err(Error::DiskFull)), Err(Error::DiskFull));
}

#[test]
fn audio_flags_parse() {
    let args = RecordArgs {
        output: None,
        display: None,
        window: None,
        foreground: false,
        quality: QualityArg::P1080p30,
        stream_url: None,
        duration: None,
        no_cursor: false,
        no_system_audio: true,
        no_mic: true,
    };
    assert!(args.no_system_audio);
    assert!(args.no_mic);
    let config = args.record_config("o.mp4".to_string());
    assert_eq!(config.audio, AudioConfig { system: false, microphone: false });
    assert!(!config.audio.is_enabled());
    assert_eq!(config.target, CaptureTarget::PrimaryDisplay);
    assert_eq!(config.quality, Quality::P1080p30);
}

#[test]
fn pause_needs_a_running_session() {
    let mut s = Settings::default();
    let before = s.clone();
    let out = apply_command(Command::Pause, &mut s, false, &[]);
    assert_eq!(out.effect, Effect::Nothing);
    assert!(!out.persist);
    assert_eq!(s, before);
}
