//! Reading a capture device's mix format, and sizing its packets.
use vstd::prelude::*;

use crate::audio::mix::{block_align_spec, SampleFormat};
use crate::error::Error;
use crate::text::{decimal, push_decimal, to_owned_string};

verus! {

/// `WAVE_FORMAT_PCM`.
pub const WAVE_FORMAT_PCM: u16 = 1;

/// `WAVE_FORMAT_IEEE_FLOAT`.
pub const WAVE_FORMAT_IEEE_FLOAT: u16 = 3;

/// `WAVE_FORMAT_EXTENSIBLE`.
pub const WAVE_FORMAT_EXTENSIBLE: u16 = 0xFFFE;

/// The sub-format GUID of an extensible format, by kind.
#[derive(Debug, Clone, Copy, PartialEq, Eq, Structural)]
pub enum SubFormat {
    Pcm,
    IeeeFloat,
    Other,
}

/// The fields of a device's mix format that the capture path reads.
#[derive(Debug, Clone, Copy, PartialEq, Eq, Structural)]
pub struct MixFormatFields {
    pub tag: u16,
    pub channels: u16,
    pub sample_rate: u32,
    pub bits_per_sample: u16,
    pub cb_size: u16,
    /// The sub-format, read only for an extensible format with its extension present.
    pub sub_format: SubFormat,
}

/// Whether the format carries the extensible tail.
pub open spec fn is_extended(f: MixFormatFields) -> bool {
    f.tag == WAVE_FORMAT_EXTENSIBLE && f.cb_size >= 22
}

/// The sample format of a mix format, or the audio error that refuses it: only integer PCM
/// and IEEE float are read, and a format without channels, rate or sample width is invalid.
pub open spec fn mix_format_spec(f: MixFormatFields) -> Result<SampleFormat, Seq<char>> {
    if is_extended(f) && f.sub_format == SubFormat::Other {
        Err("unsupported extensible mix format"@)
    } else if !is_extended(f) && f.tag != WAVE_FORMAT_PCM && f.tag != WAVE_FORMAT_IEEE_FLOAT {
        Err("unsupported mix format tag "@ + decimal(f.tag as nat))
    } else if f.channels == 0 || f.sample_rate == 0 || f.bits_per_sample == 0 {
        Err("invalid mix format"@)
    } else {
        Ok(
            SampleFormat {
                sample_rate: f.sample_rate,
                channels: f.channels,
                bits_per_sample: f.bits_per_sample,
                float: if is_extended(f) {
                    f.sub_format == SubFormat::IeeeFloat
                } else {
                    f.tag == WAVE_FORMAT_IEEE_FLOAT
                },
            },
        )
    }
}

/// The sample format of a device's mix format.
pub fn parse_mix_format(f: MixFormatFields) -> (r: Result<SampleFormat, Error>)
    ensures
        match mix_format_spec(f) {
            Ok(s) => r == Ok::<SampleFormat, Error>(s),
            Err(m) => r is Err && r->Err_0 is Audio && r->Err_0->Audio_0@ == m,
        },
{
    let mut float = f.tag == WAVE_FORMAT_IEEE_FLOAT;
    if f.tag == WAVE_FORMAT_EXTENSIBLE && f.cb_size >= 22 {
        float = f.sub_format == SubFormat::IeeeFloat;
        if !float && f.sub_format != SubFormat::Pcm {
            return Err(Error::Audio(to_owned_string("unsupported extensible mix format")));
        }
    } else if f.tag != WAVE_FORMAT_PCM && f.tag != WAVE_FORMAT_IEEE_FLOAT {
        let mut m = to_owned_string("unsupported mix format tag ");
        push_decimal(&mut m, f.tag as u64);
        return Err(Error::Audio(m));
    }
    if f.channels == 0 || f.sample_rate == 0 || f.bits_per_sample == 0 {
        return Err(Error::Audio(to_owned_string("invalid mix format")));
    }
    Ok(SampleFormat {
        sample_rate: f.sample_rate,
        channels: f.channels,
        bits_per_sample: f.bits_per_sample,
        float,
    })
}

/// Bytes in a packet of `frames` frames (saturating).
pub fn packet_byte_len(frames: u32, format: SampleFormat) -> (r: usize)
    ensures
        r == if frames * block_align_spec(format) > usize::MAX {
            usize::MAX as int
        } else {
            frames * block_align_spec(format)
        },
{
    let a = format.block_align();
    let f = frames as usize;
    match f.checked_mul(a) {
        Some(n) => n,
        None => usize::MAX,
    }
}

/// Frames a resampler emits for `in_frames` input frames (the count taken modulo 2^32) going
/// from `in_rate` to `out_rate` (each at least 1): the rounded-down proportion, at least one.
pub open spec fn resample_frames_spec(in_frames: int, in_rate: int, out_rate: int) -> int {
    let i = if in_rate >= 1 { in_rate } else { 1 };
    let o = if out_rate >= 1 { out_rate } else { 1 };
    let n = (in_frames % 0x1_0000_0000) * o / i;
    if n >= 1 {
        n
    } else {
        1
    }
}

/// Frames a resampler emits for `in_frames` input frames.
pub fn resample_frame_count(in_frames: usize, in_rate: u32, out_rate: u32) -> (r: u64)
    ensures
        r == resample_frames_spec(in_frames as int, in_rate as int, out_rate as int),
{
    let i: u64 = if in_rate >= 1 {
        in_rate as u64
    } else {
        1
    };
    let o: u64 = if out_rate >= 1 {
        out_rate as u64
    } else {
        1
    };
    let frames: u64 = (in_frames as u64) % 0x1_0000_0000;
    assert(frames * o <= 0xFFFF_FFFF * 0xFFFF_FFFF) by (nonlinear_arith)
        requires
            frames < 0x1_0000_0000,
            o <= 0xFFFF_FFFF,
    ;
    let n = frames * o / i;
    if n >= 1 {
        n
    } else {
        1
    }
}

/// A mix format is read as the samples it declares: an extensible format with its extension
/// is float exactly when its sub-format is IEEE float, whatever its tag says; a plain format is
/// float exactly when tagged IEEE float; rate, channels and width are the format's own; and a
/// format is read exactly when its kind is PCM or float and it has channels, a rate and a width.
pub proof fn lemma_mix_format_reads_declared_samples(f: MixFormatFields)
    ensures
        f.tag == WAVE_FORMAT_EXTENSIBLE && f.cb_size >= 22 ==> (mix_format_spec(f) matches Ok(s)
            ==> (s.float <==> f.sub_format == SubFormat::IeeeFloat)),
        !(f.tag == WAVE_FORMAT_EXTENSIBLE && f.cb_size >= 22) ==> (mix_format_spec(f) matches Ok(s)
            ==> (s.float <==> f.tag == WAVE_FORMAT_IEEE_FLOAT)),
        mix_format_spec(f) matches Ok(s) ==> s.sample_rate == f.sample_rate && s.channels
            == f.channels && s.bits_per_sample == f.bits_per_sample,
        mix_format_spec(f) is Ok <==> ((if f.tag == WAVE_FORMAT_EXTENSIBLE && f.cb_size >= 22 {
            f.sub_format == SubFormat::Pcm || f.sub_format == SubFormat::IeeeFloat
        } else {
            f.tag == WAVE_FORMAT_PCM || f.tag == WAVE_FORMAT_IEEE_FLOAT
        }) && f.channels > 0 && f.sample_rate > 0 && f.bits_per_sample > 0),
{
}

} // verus!
