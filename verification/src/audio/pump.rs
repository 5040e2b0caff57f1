//! How the capture loop turns buffered samples into mix chunks.
use vstd::prelude::*;

verus! {

/// Samples kept pending per source: two seconds of 48 kHz stereo.
pub const MAX_PENDING_SAMPLES: usize = 192_000;

/// Whether the driving source has a full chunk: system audio drives when it is open, the
/// microphone otherwise.
pub fn ready_chunk(drive_system: bool, system_len: usize, mic_len: usize, chunk_samples: usize) -> (r: bool)
    ensures
        r == if drive_system {
            system_len >= chunk_samples
        } else {
            mic_len >= chunk_samples
        },
{
    if drive_system {
        system_len >= chunk_samples
    } else {
        mic_len >= chunk_samples
    }
}

/// The first `samples` entries of `buf`, padded with `pad` when `buf` is shorter.
pub open spec fn take_or_pad_spec<T>(buf: Seq<T>, samples: nat, pad: T) -> Seq<T> {
    Seq::new(samples, |i: int| if i < buf.len() { buf[i] } else { pad })
}

/// What remains of `buf` after its first `samples` entries are taken.
pub open spec fn rest_after<T>(buf: Seq<T>, samples: nat) -> Seq<T> {
    if samples < buf.len() {
        buf.subrange(samples as int, buf.len() as int)
    } else {
        Seq::empty()
    }
}

/// Takes up to `samples` entries off the front of `buf`, padding the result with `pad` to
/// exactly `samples` entries.
pub fn take_or_pad<T: Copy>(buf: &mut Vec<T>, samples: usize, pad: T) -> (r: Vec<T>)
    ensures
        r@ == take_or_pad_spec(old(buf)@, samples as nat, pad),
        final(buf)@ == rest_after(old(buf)@, samples as nat),
{
    let n = buf.len();
    let take = if samples < n {
        samples
    } else {
        n
    };
    let mut out: Vec<T> = Vec::new();
    let mut i: usize = 0;
    while i < samples
        invariant
            n == buf@.len(),
            buf@ == old(buf)@,
            take == if samples < n { samples } else { n },
            0 <= i <= samples,
            out@ == take_or_pad_spec(old(buf)@, samples as nat, pad).subrange(0, i as int),
        decreases samples - i,
    {
        if i < take {
            out.push(buf[i]);
        } else {
            out.push(pad);
        }
        i = i + 1;
        assert(out@ =~= take_or_pad_spec(old(buf)@, samples as nat, pad).subrange(0, i as int));
    }
    let mut rest: Vec<T> = Vec::new();
    let mut j: usize = take;
    while j < n
        invariant
            n == buf@.len(),
            buf@ == old(buf)@,
            take <= j <= n,
            rest@ == buf@.subrange(take as int, j as int),
        decreases n - j,
    {
        rest.push(buf[j]);
        j = j + 1;
        assert(rest@ =~= buf@.subrange(take as int, j as int));
    }
    *buf = rest;
    assert(out@ =~= take_or_pad_spec(old(buf)@, samples as nat, pad));
    assert(buf@ =~= rest_after(old(buf)@, samples as nat));
    out
}

/// `buf` without its oldest entries beyond the newest `max`.
pub open spec fn capped<T>(buf: Seq<T>, max: nat) -> Seq<T> {
    if buf.len() > max {
        buf.subrange(buf.len() - max, buf.len() as int)
    } else {
        buf
    }
}

/// Drops the oldest entries of `buf` so that at most [`MAX_PENDING_SAMPLES`] remain.
pub fn cap_pending<T: Copy>(buf: &mut Vec<T>)
    ensures
        final(buf)@ == capped(old(buf)@, MAX_PENDING_SAMPLES as nat),
        final(buf)@.len() <= MAX_PENDING_SAMPLES,
{
    let n = buf.len();
    if n > MAX_PENDING_SAMPLES {
        let extra = n - MAX_PENDING_SAMPLES;
        let mut rest: Vec<T> = Vec::new();
        let mut j: usize = extra;
        while j < n
            invariant
                n == buf@.len(),
                buf@ == old(buf)@,
                extra <= j <= n,
                rest@ == buf@.subrange(extra as int, j as int),
            decreases n - j,
        {
            rest.push(buf[j]);
            j = j + 1;
            assert(rest@ =~= buf@.subrange(extra as int, j as int));
        }
        *buf = rest;
    }
}

/// The pairs of chunks (system, microphone) that the loop cuts while the driving source has
/// a full chunk, and the buffers that remain.
pub open spec fn ready_chunks_spec<T>(
    system: Seq<T>,
    mic: Seq<T>,
    drive_system: bool,
    chunk: nat,
    pad: T,
) -> (Seq<(Seq<T>, Seq<T>)>, Seq<T>, Seq<T>)
    decreases (if drive_system { system.len() } else { mic.len() }),
{
    let driving = if drive_system { system.len() } else { mic.len() };
    if chunk == 0 || driving < chunk {
        (Seq::empty(), system, mic)
    } else {
        let pair = (take_or_pad_spec(system, chunk, pad), take_or_pad_spec(mic, chunk, pad));
        let next = ready_chunks_spec(
            rest_after(system, chunk),
            rest_after(mic, chunk),
            drive_system,
            chunk,
            pad,
        );
        (seq![pair] + next.0, next.1, next.2)
    }
}

/// Cuts chunk pairs off the two pending buffers while the driving source holds a full chunk;
/// the other source is padded with `pad` where it is short.
pub fn take_ready_chunks<T: Copy>(
    system: &mut Vec<T>,
    mic: &mut Vec<T>,
    drive_system: bool,
    chunk: usize,
    pad: T,
) -> (r: Vec<(Vec<T>, Vec<T>)>)
    requires
        chunk > 0,
    ensures
        r@.map_values(|p: (Vec<T>, Vec<T>)| (p.0@, p.1@)) == ready_chunks_spec(
            old(system)@,
            old(mic)@,
            drive_system,
            chunk as nat,
            pad,
        ).0,
        final(system)@ == ready_chunks_spec(old(system)@, old(mic)@, drive_system, chunk as nat, pad).1,
        final(mic)@ == ready_chunks_spec(old(system)@, old(mic)@, drive_system, chunk as nat, pad).2,
{
    let mut out: Vec<(Vec<T>, Vec<T>)> = Vec::new();
    let ghost total = ready_chunks_spec(old(system)@, old(mic)@, drive_system, chunk as nat, pad);
    while ready_chunk(drive_system, system.len(), mic.len(), chunk)
        invariant
            chunk > 0,
            total == ready_chunks_spec(old(system)@, old(mic)@, drive_system, chunk as nat, pad),
            ({
                let here = ready_chunks_spec(system@, mic@, drive_system, chunk as nat, pad);
                &&& out@.map_values(|p: (Vec<T>, Vec<T>)| (p.0@, p.1@)) + here.0 == total.0
                &&& here.1 == total.1
                &&& here.2 == total.2
            }),
        decreases (if drive_system { system@.len() } else { mic@.len() }),
    {
        let ghost s0 = system@;
        let ghost m0 = mic@;
        let ghost before = out@.map_values(|p: (Vec<T>, Vec<T>)| (p.0@, p.1@));
        let a = take_or_pad(system, chunk, pad);
        let b = take_or_pad(mic, chunk, pad);
        let ghost pa = (a@, b@);
        out.push((a, b));
        proof {
            let here0 = ready_chunks_spec(s0, m0, drive_system, chunk as nat, pad);
            let here1 = ready_chunks_spec(system@, mic@, drive_system, chunk as nat, pad);
            assert(here0.0 == seq![pa] + here1.0);
            assert(out@.map_values(|p: (Vec<T>, Vec<T>)| (p.0@, p.1@)) =~= before.push(pa));
            assert(before.push(pa) + here1.0 =~= before + (seq![pa] + here1.0));
        }
    }
    assert(out@.map_values(|p: (Vec<T>, Vec<T>)| (p.0@, p.1@)) + Seq::empty() =~= out@.map_values(
        |p: (Vec<T>, Vec<T>)| (p.0@, p.1@),
    ));
    out
}

/// One turn of the capture loop after new samples were appended: each pending buffer is capped
/// to [`MAX_PENDING_SAMPLES`]; while paused both are emptied and nothing is cut (audio freezes
/// with video); otherwise the ready chunk pairs are cut.
pub fn pump_step<T: Copy>(
    system: &mut Vec<T>,
    mic: &mut Vec<T>,
    paused: bool,
    drive_system: bool,
    chunk: usize,
    pad: T,
) -> (r: Vec<(Vec<T>, Vec<T>)>)
    requires
        chunk > 0,
    ensures
        paused ==> r@.len() == 0 && final(system)@.len() == 0 && final(mic)@.len() == 0,
        !paused ==> {
            let s = capped(old(system)@, MAX_PENDING_SAMPLES as nat);
            let m = capped(old(mic)@, MAX_PENDING_SAMPLES as nat);
            let cut = ready_chunks_spec(s, m, drive_system, chunk as nat, pad);
            &&& r@.map_values(|p: (Vec<T>, Vec<T>)| (p.0@, p.1@)) == cut.0
            &&& final(system)@ == cut.1
            &&& final(mic)@ == cut.2
        },
{
    cap_pending(system);
    cap_pending(mic);
    if paused {
        *system = Vec::new();
        *mic = Vec::new();
        return Vec::new();
    }
    take_ready_chunks(system, mic, drive_system, chunk, pad)
}

/// The last chunk pair when the loop stops: while either buffer still holds samples, one chunk
/// of each, padded with `pad`; none when both are empty.
pub fn final_chunk<T: Copy>(system: &mut Vec<T>, mic: &mut Vec<T>, chunk: usize, pad: T) -> (r: Option<(Vec<T>, Vec<T>)>)
    ensures
        old(system)@.len() == 0 && old(mic)@.len() == 0 ==> r is None && final(system)@ == old(system)@
            && final(mic)@ == old(mic)@,
        old(system)@.len() > 0 || old(mic)@.len() > 0 ==> (r matches Some(p) && p.0@
            == take_or_pad_spec(old(system)@, chunk as nat, pad) && p.1@ == take_or_pad_spec(
            old(mic)@,
            chunk as nat,
            pad,
        ) && final(system)@ == rest_after(old(system)@, chunk as nat) && final(mic)@ == rest_after(
            old(mic)@,
            chunk as nat,
        )),
{
    if system.len() == 0 && mic.len() == 0 {
        return None;
    }
    let a = take_or_pad(system, chunk, pad);
    let b = take_or_pad(mic, chunk, pad);
    Some((a, b))
}

} // verus!
