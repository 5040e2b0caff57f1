//! Sample formats and the arithmetic that keeps the audio track as long as the video.
use vstd::prelude::*;

use crate::adaptive::{sat_mul_u64, sat_sub_u64};

verus! {

/// Encoder sample rate.
pub const OUTPUT_SAMPLE_RATE: u32 = 48_000;

/// Encoder channel count (stereo).
pub const OUTPUT_CHANNELS: usize = 2;

/// 20 ms at 48 kHz.
pub const CHUNK_FRAMES: usize = 960;

/// Media Foundation / QPC tick: 100 nanoseconds.
pub const HNS_PER_SECOND: u64 = 10_000_000;

/// How long the mixer waits without a full chunk before it emits silence, in nanoseconds.
pub const SILENCE_TICK_NANOS: u64 = 20_000_000;

/// A native PCM format as the capture device reports it.
#[derive(Debug, Clone, Copy, PartialEq, Eq, Structural)]
pub struct SampleFormat {
    pub sample_rate: u32,
    pub channels: u16,
    pub bits_per_sample: u16,
    pub float: bool,
}

/// Bytes per interleaved frame: channels times bytes per sample (at least one byte).
pub open spec fn block_align_spec(f: SampleFormat) -> int {
    f.channels * ((if f.bits_per_sample >= 8 {
        f.bits_per_sample
    } else {
        8
    }) / 8)
}

impl SampleFormat {
    /// Bytes per interleaved frame.
    pub fn block_align(self) -> (r: usize)
        ensures
            r == block_align_spec(self),
    {
        let bits: u16 = if self.bits_per_sample >= 8 {
            self.bits_per_sample
        } else {
            8
        };
        let width = (bits / 8) as usize;
        let ch = self.channels as usize;
        assert(ch * width <= 65535 * 8191) by (nonlinear_arith)
            requires
                ch <= 65535,
                width <= 8191,
        ;
        ch * width
    }
}

/// Emit a mix tick when *any* open source has a full chunk.
///
/// Loopback often delivers nothing while the render graph is silent; waiting on system audio
/// then would starve the microphone.
pub fn should_emit_mix_chunk(
    system_open: bool,
    mic_open: bool,
    system_len: usize,
    mic_len: usize,
    chunk_samples: usize,
) -> (r: bool)
    ensures
        r == ((system_open && system_len >= chunk_samples) || (mic_open && mic_len
            >= chunk_samples)),
{
    (system_open && system_len >= chunk_samples) || (mic_open && mic_len >= chunk_samples)
}

/// After a wait with no full chunk, still emit silence so the audio timeline covers the
/// video: when not paused and at least 20 ms (`since_last_emit`, in nanoseconds) have passed.
pub fn should_emit_silence_tick(paused: bool, since_last_emit: u64) -> (r: bool)
    ensures
        r == (!paused && since_last_emit >= SILENCE_TICK_NANOS),
{
    !paused && since_last_emit >= SILENCE_TICK_NANOS
}

/// PCM frames that a video span of `video_hns` 100 ns units needs.
pub open spec fn frames_for_hns(video_hns: int) -> int {
    sat_mul_u64(video_hns, OUTPUT_SAMPLE_RATE as int) / HNS_PER_SECOND as int
}

/// PCM frames (not samples) that a video timespan of `video_hns` 100ns units needs.
pub fn pcm_frames_for_video_hns(video_hns: u64) -> (r: u64)
    ensures
        r == frames_for_hns(video_hns as int),
{
    let prod: u64 = match video_hns.checked_mul(OUTPUT_SAMPLE_RATE as u64) {
        Some(v) => v,
        None => u64::MAX,
    };
    prod / HNS_PER_SECOND
}

/// How many extra PCM frames to send so audio covers `video_hns`.
pub fn missing_audio_frames(sent_frames: u64, video_hns: u64) -> (r: u64)
    ensures
        r == sat_sub_u64(frames_for_hns(video_hns as int), sent_frames as int),
        sent_frames + r >= frames_for_hns(video_hns as int),
{
    pcm_frames_for_video_hns(video_hns).saturating_sub(sent_frames)
}

/// Interleaved stereo i16 silence for `frames` PCM frames: four zero bytes per frame.
pub fn silence_i16_le(frames: usize) -> (r: Vec<u8>)
    requires
        frames * 4 <= isize::MAX,
    ensures
        r@.len() == frames * 4,
        forall|i: int| 0 <= i < r@.len() ==> r@[i] == 0,
{
    let n = frames * OUTPUT_CHANNELS * 2;
    let mut out: Vec<u8> = Vec::with_capacity(n);
    let mut i: usize = 0;
    while i < n
        invariant
            n == frames * 4,
            0 <= i <= n,
            out@.len() == i,
            forall|j: int| 0 <= j < i ==> out@[j] == 0,
        decreases n - i,
    {
        out.push(0);
        i = i + 1;
    }
    out
}

/// The silence chunks, in frames, that cover `missing` frames: whole chunks of
/// [`CHUNK_FRAMES`] and then the remainder.
pub open spec fn silence_chunks_spec(missing: nat) -> Seq<nat>
    decreases missing,
{
    if missing == 0 {
        Seq::empty()
    } else if missing <= CHUNK_FRAMES {
        seq![missing]
    } else {
        seq![CHUNK_FRAMES as nat] + silence_chunks_spec((missing - CHUNK_FRAMES) as nat)
    }
}

/// The sum of a list of frame counts.
pub open spec fn total(s: Seq<nat>) -> nat
    decreases s.len(),
{
    if s.len() == 0 {
        0
    } else {
        s[0] + total(s.drop_first())
    }
}

proof fn lemma_silence_chunks_total(missing: nat)
    ensures
        total(silence_chunks_spec(missing)) == missing,
        forall|i: int|
            0 <= i < silence_chunks_spec(missing).len() ==> 0 < #[trigger] silence_chunks_spec(
                missing,
            )[i] <= CHUNK_FRAMES,
    decreases missing,
{
    if missing > CHUNK_FRAMES {
        let rest = silence_chunks_spec((missing - CHUNK_FRAMES) as nat);
        lemma_silence_chunks_total((missing - CHUNK_FRAMES) as nat);
        let s = seq![CHUNK_FRAMES as nat] + rest;
        assert(s.drop_first() =~= rest);
        assert(total(s) == s[0] + total(s.drop_first()));
        assert forall|i: int| 0 <= i < s.len() implies 0 < #[trigger] s[i] <= CHUNK_FRAMES by {
            if i > 0 {
                assert(s[i] == rest[i - 1]);
            }
        }
    } else if missing > 0 {
        assert(seq![missing].drop_first() =~= Seq::<nat>::empty());
        assert(total(Seq::<nat>::empty()) == 0);
        assert(total(seq![missing]) == missing + total(seq![missing].drop_first()));
    }
}

/// Frame counts of the silence chunks that pad audio out to the video's length: chunks of at
/// most 20 ms whose sum is exactly `missing`.
pub fn silence_chunks(missing: u64) -> (r: Vec<usize>)
    ensures
        r@.map_values(|f: usize| f as nat) == silence_chunks_spec(missing as nat),
        total(r@.map_values(|f: usize| f as nat)) == missing,
        forall|i: int| 0 <= i < r@.len() ==> 0 < #[trigger] r@[i] <= CHUNK_FRAMES,
{
    let mut out: Vec<usize> = Vec::new();
    let mut left = missing;
    proof {
        lemma_silence_chunks_total(missing as nat);
    }
    while left > 0
        invariant
            out@.map_values(|f: usize| f as nat) + silence_chunks_spec(left as nat)
                == silence_chunks_spec(missing as nat),
            forall|i: int| 0 <= i < out@.len() ==> 0 < #[trigger] out@[i] <= CHUNK_FRAMES,
        decreases left,
    {
        let ghost before = out@;
        let frames: usize = if left > CHUNK_FRAMES as u64 {
            CHUNK_FRAMES
        } else {
            left as usize
        };
        out.push(frames);
        proof {
            let rest = silence_chunks_spec((left - frames) as nat);
            if left > CHUNK_FRAMES as u64 {
                assert(silence_chunks_spec(left as nat) == seq![CHUNK_FRAMES as nat] + rest);
            } else {
                assert(silence_chunks_spec(left as nat) == seq![left as nat]);
                assert(rest =~= Seq::<nat>::empty());
            }
            assert(out@.map_values(|f: usize| f as nat) =~= before.map_values(|f: usize| f as nat).push(
                frames as nat,
            ));
            assert(out@.map_values(|f: usize| f as nat) + rest =~= before.map_values(
                |f: usize| f as nat,
            ) + silence_chunks_spec(left as nat));
        }
        left = left - frames as u64;
    }
    assert(silence_chunks_spec(0) =~= Seq::<nat>::empty());
    assert(out@.map_values(|f: usize| f as nat) + Seq::<nat>::empty() =~= out@.map_values(
        |f: usize| f as nat,
    ));
    out
}

/// Interleaved samples of `channels` (at least one) channels as stereo: a mono frame is
/// doubled, a frame with more channels keeps its first two; stereo input is copied.
pub open spec fn to_stereo_spec<T>(samples: Seq<T>, channels: int) -> Seq<T> {
    let c = if channels >= 1 {
        channels
    } else {
        1
    };
    if c == 2 {
        samples
    } else {
        Seq::new(
            (((samples.len() as int) / c) * 2) as nat,
            |i: int|
                if i % 2 == 0 || c == 1 {
                    samples[(i / 2) * c]
                } else {
                    samples[(i / 2) * c + 1]
                },
        )
    }
}

/// Interleaved native samples to interleaved stereo.
pub fn to_stereo<T: Copy>(samples: &[T], channels: u16) -> (r: Vec<T>)
    ensures
        r@ == to_stereo_spec(samples@, channels as int),
{
    let c: usize = if channels >= 1 {
        channels as usize
    } else {
        1
    };
    let n = samples.len();
    let mut out: Vec<T> = Vec::new();
    if c == OUTPUT_CHANNELS {
        let mut i: usize = 0;
        while i < n
            invariant
                n == samples@.len(),
                0 <= i <= n,
                out@ == samples@.subrange(0, i as int),
            decreases n - i,
        {
            out.push(samples[i]);
            i = i + 1;
            assert(out@ =~= samples@.subrange(0, i as int));
        }
        assert(samples@.subrange(0, n as int) =~= samples@);
        return out;
    }
    let frames = n / c;
    let ghost spec = to_stereo_spec(samples@, channels as int);
    let mut f: usize = 0;
    while f < frames
        invariant
            n == samples@.len(),
            1 <= c <= 65535,
            c != 2,
            c == if channels >= 1 {
                channels as int
            } else {
                1
            },
            frames == n / c,
            spec == to_stereo_spec(samples@, channels as int),
            spec.len() == frames * 2,
            0 <= f <= frames,
            out@.len() == f * 2,
            forall|i: int| 0 <= i < out@.len() ==> out@[i] == #[trigger] spec[i],
        decreases frames - f,
    {
        assert(f * c + c <= frames * c) by (nonlinear_arith)
            requires
                f < frames,
                c >= 1,
        ;
        assert(frames * c <= n) by (nonlinear_arith)
            requires
                frames == n / c,
                c >= 1,
        ;
        let base = f * c;
        let left = samples[base];
        let right = if c == 1 {
            left
        } else {
            samples[base + 1]
        };
        out.push(left);
        out.push(right);
        proof {
            let i0 = (f * 2) as int;
            assert(i0 / 2 == f as int);
            assert((i0 + 1) / 2 == f as int);
            assert(i0 % 2 == 0);
            assert((i0 + 1) % 2 == 1);
            assert(out@[i0] == spec[i0]);
            assert(out@[i0 + 1] == spec[i0 + 1]);
        }
        f = f + 1;
    }
    assert(out@ =~= spec);
    out
}

} // verus!
