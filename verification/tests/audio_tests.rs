use lightcapture::audio::mix::{
    missing_audio_frames, pcm_frames_for_video_hns, should_emit_mix_chunk,
    should_emit_silence_tick, silence_chunks, silence_i16_le, to_stereo, SampleFormat,
    CHUNK_FRAMES, HNS_PER_SECOND, OUTPUT_CHANNELS,
};
use lightcapture::audio::pump::{
    cap_pending, final_chunk, pump_step, ready_chunk, take_or_pad, take_ready_chunks,
    MAX_PENDING_SAMPLES,
};
use lightcapture::audio::queue::{PcmQueue, PCM_QUEUE_CAP};

const MS: u64 = 1_000_000;

#[test]
fn silent_loopback_does_not_block_microphone() {
    let chunk = CHUNK_FRAMES * OUTPUT_CHANNELS;
    assert!(should_emit_mix_chunk(true, true, 0, chunk, chunk));
}

#[test]
fn silent_mic_does_not_block_loopback() {
    let chunk = CHUNK_FRAMES * OUTPUT_CHANNELS;
    assert!(should_emit_mix_chunk(true, true, chunk, 0, chunk));
}

#[test]
fn closed_sources_do_not_emit() {
    let chunk = CHUNK_FRAMES * OUTPUT_CHANNELS;
    assert!(!should_emit_mix_chunk(false, false, chunk, chunk, chunk));
}

#[test]
fn silence_tick_after_20ms_when_idle() {
    assert!(should_emit_silence_tick(false, 20 * MS));
    assert!(!should_emit_silence_tick(false, 19 * MS));
    assert!(!should_emit_silence_tick(true, 50 * MS));
}

#[test]
fn missing_audio_covers_one_second_of_video() {
    assert_eq!(pcm_frames_for_video_hns(HNS_PER_SECOND), 48_000);
    assert_eq!(missing_audio_frames(960, HNS_PER_SECOND), 48_000 - 960);
    assert_eq!(missing_audio_frames(48_000, HNS_PER_SECOND), 0);
    assert_eq!(silence_i16_le(2).len(), 8);
}

#[test]
fn silence_chunks_cover_the_gap() {
    assert_eq!(silence_chunks(2000), vec![960, 960, 80]);
    assert_eq!(silence_chunks(960), vec![960]);
    assert!(silence_chunks(0).is_empty());
    assert!(silence_i16_le(3).iter().all(|b| *b == 0));
    assert_eq!(pcm_frames_for_video_hns(u64::MAX), u64::MAX / HNS_PER_SECOND);
}

#[test]
fn block_align_of_formats() {
    let f = SampleFormat { sample_rate: 48_000, channels: 2, bits_per_sample: 16, float: false };
    assert_eq!(f.block_align(), 4);
    let f = SampleFormat { sample_rate: 44_100, channels: 6, bits_per_sample: 32, float: true };
    assert_eq!(f.block_align(), 24);
    let f = SampleFormat { sample_rate: 8_000, channels: 1, bits_per_sample: 4, float: false };
    assert_eq!(f.block_align(), 1);
}

#[test]
fn to_stereo_doubles_mono_and_keeps_two_of_many() {
    assert_eq!(to_stereo(&[1, 2, 3], 1), vec![1, 1, 2, 2, 3, 3]);
    assert_eq!(to_stereo(&[1, 2, 3, 4, 5, 6, 7], 3), vec![1, 2, 4, 5]);
    assert_eq!(to_stereo(&[1, 2, 3], 2), vec![1, 2, 3]);
    assert_eq!(to_stereo(&[9, 8], 0), vec![9, 9, 8, 8]);
}

#[test]
fn drop_oldest_increments_drops() {
    let mut queue = PcmQueue::new();
    for i in 0..=PCM_QUEUE_CAP {
        queue.push(vec![i as u8]);
    }
    assert_eq!(queue.drops(), 1);
    let chunks = queue.pop_all();
    assert_eq!(chunks.len(), PCM_QUEUE_CAP);
    assert_eq!(chunks[0], vec![1]);
    assert_eq!(chunks[PCM_QUEUE_CAP - 1], vec![PCM_QUEUE_CAP as u8]);
}

#[test]
fn pop_all_empties() {
    let mut queue = PcmQueue::new();
    queue.push(vec![9]);
    assert_eq!(queue.pop_all(), vec![vec![9]]);
    assert!(queue.pop_all().is_empty());
}

#[test]
fn drop_counter_wraps_like_an_atomic() {
    let mut queue = PcmQueue::new();
    for i in 0..PCM_QUEUE_CAP {
        queue.push(vec![i as u8]);
    }
    queue.drops = u64::MAX;
    queue.push(vec![99]);
    assert_eq!(queue.drops(), 0);
}

#[test]
fn pump_chunking() {
    assert!(ready_chunk(true, 4, 0, 4));
    assert!(!ready_chunk(false, 4, 3, 4));
    let mut buf = vec![1, 2, 3];
    assert_eq!(take_or_pad(&mut buf, 5, 0), vec![1, 2, 3, 0, 0]);
    assert!(buf.is_empty());
    let mut buf = vec![1, 2, 3];
    assert_eq!(take_or_pad(&mut buf, 2, 0), vec![1, 2]);
    assert_eq!(buf, vec![3]);
    let mut big: Vec<u8> = vec![7; 192_010];
    big[10] = 1;
    cap_pending(&mut big);
    assert_eq!(big.len(), 192_000);
    assert_eq!(big[0], 1);
    let mut system = vec![1, 2, 3, 4, 5];
    let mut mic = vec![9];
    let pairs = take_ready_chunks(&mut system, &mut mic, true, 2, 0);
    assert_eq!(pairs, vec![(vec![1, 2], vec![9, 0]), (vec![3, 4], vec![0, 0])]);
    assert_eq!(system, vec![5]);
    assert!(mic.is_empty());
}

#[test]
fn paused_pump_drops_buffered_audio() {
    let mut system = vec![1i16; 10];
    let mut mic = vec![2i16; 3];
    let cut = pump_step(&mut system, &mut mic, true, true, 4, 0);
    assert!(cut.is_empty());
    assert!(system.is_empty() && mic.is_empty());
}

#[test]
fn running_pump_caps_then_cuts_ready_chunks() {
    let mut system: Vec<u32> = (0..10).collect();
    let mut mic = vec![9u32; 3];
    let cut = pump_step(&mut system, &mut mic, false, true, 4, 0);
    assert_eq!(cut, vec![(vec![0, 1, 2, 3], vec![9, 9, 9, 0]), (vec![4, 5, 6, 7], vec![0, 0, 0, 0])]);
    assert_eq!(system, vec![8, 9]);
    assert!(mic.is_empty());
    let mut long: Vec<u8> = vec![1; MAX_PENDING_SAMPLES + 5];
    let mut none: Vec<u8> = Vec::new();
    let cut = pump_step(&mut long, &mut none, false, false, 4, 0);
    assert!(cut.is_empty());
    assert_eq!(long.len(), MAX_PENDING_SAMPLES);
}

#[test]
fn stopping_flushes_one_padded_chunk() {
    let mut system = vec![5i16, 6];
    let mut mic: Vec<i16> = Vec::new();
    assert_eq!(final_chunk(&mut system, &mut mic, 4, 0), Some((vec![5, 6, 0, 0], vec![0, 0, 0, 0])));
    assert!(system.is_empty());
    let mut a: Vec<i16> = Vec::new();
    let mut b: Vec<i16> = Vec::new();
    assert_eq!(final_chunk(&mut a, &mut b, 4, 0), None);
}
