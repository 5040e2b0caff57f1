//! Encode-rate ladder: step the target FPS down under encoder backpressure, never up.
//!
//! Instants are nanoseconds on one monotonic clock, as plain `u64`s.
use vstd::prelude::*;

verus! {

/// Two seconds, the shortest gap between two ladder decisions.
pub const CHECK_INTERVAL_NANOS: u64 = 2_000_000_000;

/// 60 -> 30 -> 24; below 30 the rate stays.
pub open spec fn step_down_spec(fps: u32) -> u32 {
    if fps > 30 {
        30
    } else if fps > 24 {
        24
    } else {
        fps
    }
}

/// 60 -> 30 -> 24. Steps the FPS ladder down without restarting the encoder.
pub fn step_down_fps(fps: u32) -> (r: u32)
    ensures
        r == step_down_spec(fps),
        r <= fps,
{
    if fps > 30 {
        30
    } else if fps > 24 {
        24
    } else {
        fps
    }
}

/// The ladder never raises a rate, and one step from any rate lands at or below 30.
pub proof fn lemma_step_down_never_raises(fps: u32)
    ensures
        step_down_spec(fps) <= fps,
        step_down_spec(fps) <= 30,
        step_down_spec(step_down_spec(step_down_spec(fps))) == step_down_spec(step_down_spec(fps)),
        fps <= 24 ==> step_down_spec(fps) == fps,
{
}

/// `u64::saturating_mul`.
pub open spec fn sat_mul_u64(a: int, b: int) -> int {
    if a * b > u64::MAX {
        u64::MAX as int
    } else {
        a * b
    }
}

/// `u64::saturating_sub`.
pub open spec fn sat_sub_u64(a: int, b: int) -> int {
    if a >= b {
        a - b
    } else {
        0
    }
}

/// `u64::saturating_add`.
pub open spec fn sat_add_u64(a: int, b: int) -> int {
    if a + b > u64::MAX {
        u64::MAX as int
    } else {
        a + b
    }
}

fn saturating_mul_u64(a: u64, b: u64) -> (r: u64)
    ensures
        r == sat_mul_u64(a as int, b as int),
{
    match a.checked_mul(b) {
        Some(v) => v,
        None => u64::MAX,
    }
}

/// Steps encode FPS down under encoder backpressure. Resolution stays fixed (one encoder).
pub struct Adaptive {
    pub fps: u32,
    pub last_backpressure: u64,
    pub last_encoded: u64,
    pub last_check: u64,
}

/// Whether the counters since the last check show an encoder that is falling behind: at least
/// ten frames of work, of which at least a fifth met backpressure.
pub open spec fn behind(bp_delta: int, enc_delta: int) -> bool {
    let work = sat_add_u64(bp_delta, enc_delta);
    work >= 10 && sat_mul_u64(bp_delta, 5) >= work
}

impl Adaptive {
    /// A ladder at `fps` (at least 1), with its clock started at `now`.
    pub fn new(fps: u32, now: u64) -> (r: Self)
        ensures
            r.fps == if fps >= 1 {
                fps
            } else {
                1
            },
            r.last_backpressure == 0,
            r.last_encoded == 0,
            r.last_check == now,
    {
        Adaptive {
            fps: if fps >= 1 {
                fps
            } else {
                1
            },
            last_backpressure: 0,
            last_encoded: 0,
            last_check: now,
        }
    }

    /// Returns a new FPS when the encoder is falling behind. Never steps up.
    ///
    /// Within two seconds of the last check nothing changes. After that the counters are
    /// sampled, and the FPS steps down one rung when the encoder is behind and a lower rung
    /// exists.
    pub fn tick(&mut self, now: u64, backpressure: u64, encoded: u64) -> (r: Option<u32>)
        ensures
            ({
                let o = *old(self);
                let f = *final(self);
                if sat_sub_u64(now as int, o.last_check as int) < CHECK_INTERVAL_NANOS {
                    f == o && r is None
                } else {
                    let bp_delta = sat_sub_u64(backpressure as int, o.last_backpressure as int);
                    let enc_delta = sat_sub_u64(encoded as int, o.last_encoded as int);
                    let step = behind(bp_delta, enc_delta) && step_down_spec(o.fps) < o.fps;
                    &&& f.last_backpressure == backpressure
                    &&& f.last_encoded == encoded
                    &&& f.last_check == now
                    &&& step ==> r == Some(step_down_spec(o.fps)) && f.fps == step_down_spec(o.fps)
                    &&& !step ==> r is None && f.fps == o.fps
                }
            }),
            final(self).fps <= old(self).fps,
            r matches Some(n) ==> n < old(self).fps && n == final(self).fps,
    {
        if now.saturating_sub(self.last_check) < CHECK_INTERVAL_NANOS {
            return None;
        }
        let bp_delta = backpressure.saturating_sub(self.last_backpressure);
        let enc_delta = encoded.saturating_sub(self.last_encoded);
        self.last_backpressure = backpressure;
        self.last_encoded = encoded;
        self.last_check = now;
        let work = bp_delta.saturating_add(enc_delta);
        if work < 10 {
            return None;
        }
        if saturating_mul_u64(bp_delta, 5) < work {
            return None;
        }
        let next = step_down_fps(self.fps);
        if next < self.fps {
            self.fps = next;
            Some(next)
        } else {
            None
        }
    }
}

/// The ladder steps down only for an encoder that is behind: at least ten frames of work since
/// the last check, of which at least a fifth met backpressure (so at most four encoded frames
/// per backpressured one). Holds wherever the work count does not overflow.
pub proof fn lemma_behind_is_a_fifth_backpressured(bp_delta: u64, enc_delta: u64)
    requires
        bp_delta + enc_delta <= u64::MAX,
    ensures
        behind(bp_delta as int, enc_delta as int) <==> (bp_delta + enc_delta >= 10 && 5 * bp_delta
            >= bp_delta + enc_delta),
        behind(bp_delta as int, enc_delta as int) ==> 4 * bp_delta >= enc_delta,
{
}

} // verus!
