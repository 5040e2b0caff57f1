use lightcapture::adaptive::{step_down_fps, Adaptive};
use lightcapture::frame_gate::FrameGate;
use lightcapture::hardware::{classify_encoder, pick_encoder, EncoderKind, HardwareInfo};
use lightcapture::stats::StatsInner;
use lightcapture::version;

const MS: u64 = 1_000_000;
const SEC: u64 = 1_000_000_000;

#[test]
fn ladder_stops_at_24() {
    assert_eq!(step_down_fps(60), 30);
    assert_eq!(step_down_fps(30), 24);
    assert_eq!(step_down_fps(24), 24);
}

#[test]
fn steps_down_when_backpressure_is_high() {
    let start = 7 * SEC;
    let mut adaptive = Adaptive::new(60, start);
    let next = adaptive.tick(start + 2 * SEC, 8, 12);
    assert_eq!(next, Some(30));
}

#[test]
fn ignores_healthy_encode() {
    let start = 7 * SEC;
    let mut adaptive = Adaptive::new(60, start);
    assert_eq!(adaptive.tick(start + 2 * SEC, 0, 60), None);
}

#[test]
fn ladder_waits_two_seconds_and_never_steps_up() {
    let mut adaptive = Adaptive::new(60, 0);
    assert_eq!(adaptive.tick(SEC, 100, 0), None);
    assert_eq!(adaptive.fps, 60);
    assert_eq!(adaptive.tick(2 * SEC, 100, 0), Some(30));
    assert_eq!(adaptive.tick(4 * SEC, 200, 0), Some(24));
    assert_eq!(adaptive.tick(6 * SEC, 300, 0), None);
    assert_eq!(adaptive.fps, 24);
    assert_eq!(Adaptive::new(0, 0).fps, 1);
}

#[test]
fn accepts_first_frame() {
    let mut gate = FrameGate::recording(30);
    let t0 = 5 * SEC;
    assert!(gate.try_accept(t0));
    assert_eq!(gate.dropped(), 0);
}

#[test]
fn drops_faster_than_fps() {
    let mut gate = FrameGate::recording(30);
    let t0 = 5 * SEC;
    assert!(gate.try_accept(t0));
    gate.release();
    assert!(!gate.try_accept(t0 + MS));
    assert_eq!(gate.dropped(), 1);
}

#[test]
fn accepts_after_interval() {
    let mut gate = FrameGate::recording(30);
    let t0 = 5 * SEC;
    assert!(gate.try_accept(t0));
    gate.release();
    assert!(gate.try_accept(t0 + 34 * MS));
    assert_eq!(gate.dropped(), 0);
}

#[test]
fn drops_when_pool_full() {
    let mut gate = FrameGate::new(60, 2);
    let t0 = 5 * SEC;
    assert!(gate.try_accept(t0));
    assert!(gate.try_accept(t0 + 20 * MS));
    assert!(!gate.try_accept(t0 + 40 * MS));
    assert_eq!(gate.dropped(), 1);
    gate.release();
    assert!(gate.try_accept(t0 + 60 * MS));
}

#[test]
fn gate_floors_fps_and_pool() {
    let gate = FrameGate::new(0, 0);
    assert_eq!(gate.min_interval, SEC);
    assert_eq!(gate.max_in_flight, 1);
    let mut gate = FrameGate::recording(30);
    gate.release();
    assert_eq!(gate.in_flight, 0);
}

#[test]
fn classifies_vendors() {
    assert_eq!(
        classify_encoder("NVIDIA H.264 Encoder MFT"),
        EncoderKind::NvidiaNvenc
    );
    assert_eq!(
        classify_encoder("Intel Quick Sync Video H.264 Encoder MFT"),
        EncoderKind::IntelQuickSync
    );
    assert_eq!(
        classify_encoder("AMD Hardware Encoder"),
        EncoderKind::AmdAmf
    );
}

#[test]
fn classifies_without_case_and_others() {
    assert_eq!(classify_encoder("nvenc h264"), EncoderKind::NvidiaNvenc);
    assert_eq!(classify_encoder("intel qsv"), EncoderKind::IntelQuickSync);
    assert_eq!(classify_encoder("radeon vce"), EncoderKind::AmdAmf);
    assert_eq!(classify_encoder("H264 Encoder"), EncoderKind::HardwareOther);
    assert_eq!(EncoderKind::AmdAmf.as_str(), "AMD AMF");
    assert_eq!(EncoderKind::Software.as_str(), "software H.264");
}

#[test]
fn pick_prefers_nvidia() {
    let names = vec![
        "Intel Quick Sync Video H.264 Encoder MFT".into(),
        "NVIDIA H.264 Encoder MFT".into(),
        "H264 Encoder".into(),
    ];
    assert_eq!(pick_encoder(&names), EncoderKind::NvidiaNvenc);
}

#[test]
fn pick_empty_is_software() {
    assert_eq!(pick_encoder(&[]), EncoderKind::Software);
    let info = HardwareInfo::software_fallback();
    assert!(info.displays.is_empty() && info.encoder_names.is_empty());
    assert_eq!(info.selected, EncoderKind::Software);
}

#[test]
fn version_is_populated() {
    assert!(!version().is_empty());
    assert!(version().contains('.'));
}

#[test]
fn snapshot_reads_atomics() {
    let mut inner = StatsInner::new(30, EncoderKind::NvidiaNvenc, 0);
    inner.frames_encoded = 12;
    inner.width = 1920;
    let snap = inner.snapshot(0);
    assert_eq!(snap.frames_encoded, 12);
    assert_eq!(snap.width, 1920);
    assert_eq!(snap.fps_target, 30);
    assert_eq!(snap.audio_frames_sent, 0);
    assert_eq!(snap.audio_drops, 0);
    assert_eq!(snap.encoder, EncoderKind::NvidiaNvenc);
    assert!(snap.failure.is_none());
}

#[test]
fn first_failure_wins() {
    let mut inner = StatsInner::new(30, EncoderKind::Software, 0);
    inner.note_failure("disk is full".to_string());
    inner.note_failure("later".to_string());
    assert!(inner.has_failed());
    assert_eq!(inner.snapshot(0).failure.as_deref(), Some("disk is full"));
}

#[test]
fn snapshot_elapsed_whole_seconds() {
    let inner = StatsInner::new(30, EncoderKind::Software, 10 * SEC);
    assert_eq!(inner.snapshot(10 * SEC + 2_500_000_000).elapsed_secs, 2);
    assert_eq!(inner.snapshot(SEC).elapsed_secs, 0);
}
