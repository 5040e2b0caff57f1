//! Caps in-flight raw frames and the target FPS. Excess frames are dropped, never queued.
//!
//! Instants are nanoseconds on one monotonic clock, as plain `u64`s.
use vstd::prelude::*;

use crate::adaptive::sat_sub_u64;

verus! {

/// One second in nanoseconds.
pub const NANOS_PER_SECOND: u64 = 1_000_000_000;

/// Caps in-flight raw frames and target FPS. Excess frames are dropped, never queued.
pub struct FrameGate {
    /// Shortest gap between two accepted frames, in nanoseconds.
    pub min_interval: u64,
    pub max_in_flight: u8,
    pub in_flight: u8,
    pub last_accepted: Option<u64>,
    pub dropped: u64,
}

impl FrameGate {
    /// Well-formed: at least one slot, and no more frames in flight than slots.
    pub open spec fn wf(&self) -> bool {
        1 <= self.max_in_flight && self.in_flight <= self.max_in_flight
    }

    /// Whether a frame arriving at `now` is turned away.
    pub open spec fn rejects(&self, now: u64) -> bool {
        ||| self.in_flight >= self.max_in_flight
        ||| (self.last_accepted matches Some(last) && sat_sub_u64(now as int, last as int)
            < self.min_interval)
    }

    /// A gate at `fps` (at least 1) with a pool of `max_in_flight` (at least 1) slots.
    pub fn new(fps: u32, max_in_flight: u8) -> (r: Self)
        ensures
            r.wf(),
            r.min_interval == NANOS_PER_SECOND / (if fps >= 1 {
                fps
            } else {
                1
            }) as u64,
            r.max_in_flight == if max_in_flight >= 1 {
                max_in_flight
            } else {
                1
            },
            r.in_flight == 0,
            r.last_accepted is None,
            r.dropped == 0,
    {
        let fps = if fps >= 1 {
            fps
        } else {
            1
        };
        FrameGate {
            min_interval: NANOS_PER_SECOND / fps as u64,
            max_in_flight: if max_in_flight >= 1 {
                max_in_flight
            } else {
                1
            },
            in_flight: 0,
            last_accepted: None,
            dropped: 0,
        }
    }

    /// Two-slot GPU pool used by the recording path.
    pub fn recording(fps: u32) -> (r: Self)
        ensures
            r.wf(),
            r.min_interval == NANOS_PER_SECOND / (if fps >= 1 {
                fps
            } else {
                1
            }) as u64,
            r.max_in_flight == 2,
            r.in_flight == 0,
            r.last_accepted is None,
            r.dropped == 0,
    {
        Self::new(fps, 2)
    }

    /// Frames turned away so far.
    pub fn dropped(&self) -> (r: u64)
        ensures
            r == self.dropped,
    {
        self.dropped
    }

    /// Returns whether this frame should be submitted to the encoder.
    ///
    /// A frame is dropped (and counted) when every slot is taken or it comes sooner than the
    /// target interval after the last accepted frame; otherwise it takes a slot.
    pub fn try_accept(&mut self, now: u64) -> (r: bool)
        requires
            old(self).wf(),
            old(self).dropped < u64::MAX,
        ensures
            final(self).wf(),
            r == !old(self).rejects(now),
            final(self).min_interval == old(self).min_interval,
            final(self).max_in_flight == old(self).max_in_flight,
            !r ==> final(self).dropped == old(self).dropped + 1 && final(self).in_flight
                == old(self).in_flight && final(self).last_accepted == old(self).last_accepted,
            r ==> final(self).dropped == old(self).dropped && final(self).in_flight
                == old(self).in_flight + 1 && final(self).last_accepted == Some(now),
    {
        if self.in_flight >= self.max_in_flight {
            self.dropped = self.dropped + 1;
            return false;
        }
        if let Some(last) = self.last_accepted {
            if now.saturating_sub(last) < self.min_interval {
                self.dropped = self.dropped + 1;
                return false;
            }
        }
        self.in_flight = self.in_flight + 1;
        self.last_accepted = Some(now);
        true
    }

    /// Call after the encoder has taken the surface (or the send failed): frees one slot.
    pub fn release(&mut self)
        requires
            old(self).wf(),
        ensures
            final(self).wf(),
            final(self).in_flight == if old(self).in_flight > 0 {
                old(self).in_flight - 1
            } else {
                0
            },
            final(self).min_interval == old(self).min_interval,
            final(self).max_in_flight == old(self).max_in_flight,
            final(self).last_accepted == old(self).last_accepted,
            final(self).dropped == old(self).dropped,
    {
        if self.in_flight > 0 {
            self.in_flight = self.in_flight - 1;
        }
    }
}

/// With every slot taken, no frame is accepted until one is released, whatever its time.
pub proof fn lemma_full_pool_drops(g: FrameGate, now: u64)
    requires
        g.wf(),
        g.in_flight == g.max_in_flight,
    ensures
        g.rejects(now),
{
}

/// A frame that arrives a whole interval after the last accepted one, with a slot free, is
/// accepted.
pub proof fn lemma_free_slot_after_interval_accepts(g: FrameGate, now: u64)
    requires
        g.wf(),
        g.in_flight < g.max_in_flight,
        g.last_accepted matches Some(last) ==> now >= last + g.min_interval,
    ensures
        !g.rejects(now),
{
}

} // verus!
