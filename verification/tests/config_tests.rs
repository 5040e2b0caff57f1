use lightcapture::clock::stamp_of;
use lightcapture::settings::settings_path_in;
use lightcapture::settings::output_dir_in;
use lightcapture::config::{
    default_bitrate_bps, even_dimension, recording_filename, sanitize_source_slug, AudioConfig,
    CaptureTarget, Quality, RecordConfig,
};
use std::path::Path;

#[test]
fn quality_fps() {
    assert_eq!(Quality::P720p24.fps(), 24);
    assert_eq!(Quality::P720p30.fps(), 30);
    assert_eq!(Quality::P1080p30.fps(), 30);
    assert_eq!(Quality::P1080p60.fps(), 60);
}

#[test]
fn bitrate_clamps() {
    assert_eq!(default_bitrate_bps(640, 360, 24), 4_000_000);
    assert_eq!(default_bitrate_bps(3840, 2160, 60), 16_000_000);
    assert_eq!(default_bitrate_bps(1920, 1080, 30), 1920 * 1080 * 30 / 10);
}

#[test]
fn even_rounds_down() {
    assert_eq!(even_dimension(1920), 1920);
    assert_eq!(even_dimension(1919), 1918);
    assert_eq!(even_dimension(1), 0);
}

#[test]
fn default_output_is_mp4() {
    let path = RecordConfig::default_output_in("out");
    let path = Path::new(&path);
    assert!(path.extension().is_some_and(|e| e == "mp4"));
    let name = path.file_name().unwrap().to_string_lossy();
    assert!(name.starts_with("LightCapture-"));
    assert!(name.ends_with("-primary.mp4"));
}

#[test]
fn encode_size_downscales_4k_to_1080() {
    assert_eq!(Quality::P1080p30.encode_size(3840, 2160), (1920, 1080));
    assert_eq!(Quality::P720p30.encode_size(3840, 2160), (1280, 720));
}

#[test]
fn encode_size_does_not_upscale() {
    assert_eq!(Quality::P1080p30.encode_size(1280, 720), (1280, 720));
    assert_eq!(Quality::P1080p60.encode_size(800, 600), (800, 600));
}

#[test]
fn encode_size_fits_16_by_10() {
    assert_eq!(Quality::P1080p30.encode_size(2560, 1600), (1728, 1080));
}

#[test]
fn recording_filename_uses_slug() {
    assert_eq!(
        recording_filename("20260910-184000", "Office Monitor"),
        "LightCapture-20260910-184000-Office-Monitor.mp4"
    );
    assert_eq!(sanitize_source_slug(r"\\.\DISPLAY1"), "DISPLAY1");
    assert_eq!(sanitize_source_slug("@@@"), "source");
}

#[test]
fn source_slug_for_targets() {
    assert_eq!(CaptureTarget::PrimaryDisplay.source_slug(), "primary");
    assert_eq!(CaptureTarget::ForegroundWindow.source_slug(), "foreground");
    assert_eq!(
        CaptureTarget::WindowTitle("Figma — File".into()).source_slug(),
        "Figma-File"
    );
}

#[test]
fn audio_defaults_on() {
    let audio = AudioConfig::default();
    assert!(audio.system);
    assert!(audio.microphone);
    assert!(audio.is_enabled());
    let config = RecordConfig::new("out.mp4".to_string());
    assert_eq!(config.audio, audio);
}

#[test]
fn audio_none_is_disabled() {
    assert!(!AudioConfig::none().is_enabled());
}

#[test]
fn display_index_slug_and_max_length() {
    assert_eq!(CaptureTarget::DisplayIndex(3).source_slug(), "display3");
    assert_eq!(
        CaptureTarget::Display { id: "--a  b--".into() }.source_slug(),
        "a-b"
    );
    let long = "x".repeat(100);
    assert_eq!(sanitize_source_slug(&long).len(), 40);
    assert_eq!(sanitize_source_slug("__ok__"), "__ok__");
}

#[test]
fn encode_size_floor_and_portrait() {
    assert_eq!(Quality::P720p24.encode_size(3, 5), (16, 16));
    assert_eq!(Quality::P720p30.encode_size(1080, 1920), (404, 720));
    assert_eq!(Quality::P1080p30.encode_size(1921, 1081), (1920, 1080));
}

#[test]
fn bitrate_mid_range_exact() {
    assert_eq!(default_bitrate_bps(1280, 720, 60), 1280 * 720 * 60 / 10);
    assert_eq!(default_bitrate_bps(100, 100, 1), 4_000_000);
}

#[test]
fn output_path_adjoins_stamped_name_to_dir() {
    let path = RecordConfig::output_path("out", "My Window!");
    let name = path.strip_prefix("out").expect("starts with the folder");
    let name = name.trim_start_matches(['/', '\\']);
    assert!(name.starts_with("LightCapture-"));
    assert!(name.ends_with("-My-Window.mp4"));
    let stamp = &name["LightCapture-".len()..name.len() - "-My-Window.mp4".len()];
    assert_eq!(stamp.len(), "YYYYMMDD-HHMMSS".len());
    assert_eq!(&stamp[8..9], "-");
    assert!(stamp.chars().filter(|c| *c != '-').all(|c| c.is_ascii_digit()));
}

#[test]
fn settings_and_output_folders_end_in_lightcapture() {
    let settings = lightcapture::settings::settings_path();
    assert!(
        settings == "lightcapture-settings.json"
            || settings.ends_with("LightCapture/settings.json")
            || settings.ends_with("LightCapture\\settings.json")
    );
    assert!(lightcapture::settings::default_output_dir().ends_with("LightCapture"));
}

#[test]
fn stamps_are_utc_calendar_times() {
    assert_eq!(stamp_of(0), "19700101-000000");
    assert_eq!(stamp_of(951_782_400), "20000229-000000");
    assert_eq!(stamp_of(1_700_000_000), "20231114-221320");
    assert_eq!(stamp_of(1_704_067_199), "20231231-235959");
    assert_eq!(stamp_of(1_704_067_200), "20240101-000000");
}

#[test]
fn settings_path_in_config_folder_or_fallback() {
    assert_eq!(settings_path_in(None), "lightcapture-settings.json");
    let path = settings_path_in(Some("/home/u/.config".to_string()));
    assert_eq!(path, "/home/u/.config/LightCapture/settings.json");
}

#[test]
fn output_dir_prefers_videos_then_home() {
    assert_eq!(output_dir_in(None), "LightCapture");
    assert_eq!(
        output_dir_in(Some((Some("/home/u/Videos".to_string()), "/home/u".to_string()))),
        "/home/u/Videos/LightCapture"
    );
    assert_eq!(output_dir_in(Some((None, "/home/u".to_string()))), "/home/u/LightCapture");
}
