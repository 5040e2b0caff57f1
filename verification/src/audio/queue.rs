//! Bounded PCM inbox between the capture thread and the encoder.
use vstd::prelude::*;

use std::collections::VecDeque;

verus! {

/// About 8 x 20 ms chunks. Extra PCM is dropped, never queued without bound.
pub const PCM_QUEUE_CAP: usize = 8;

/// `u64` counter step that wraps like an atomic `fetch_add(1)`.
pub open spec fn wrap_inc(d: u64) -> u64 {
    if d == u64::MAX {
        0
    } else {
        (d + 1) as u64
    }
}

/// One wrapping step of a `u64` counter.
pub fn wrap_inc_u64(d: u64) -> (r: u64)
    ensures
        r == wrap_inc(d),
{
    if d == u64::MAX {
        0
    } else {
        d + 1
    }
}

/// `d` advanced by `k` wrapping steps.
pub open spec fn wrap_add(d: u64, k: nat) -> u64
    decreases k,
{
    if k == 0 {
        d
    } else {
        wrap_inc(wrap_add(d, (k - 1) as nat))
    }
}

/// The chunks that survive pushing `chunk` onto `q`: the newest [`PCM_QUEUE_CAP`].
pub open spec fn after_push(q: Seq<Vec<u8>>, chunk: Vec<u8>) -> Seq<Vec<u8>> {
    let all = q.push(chunk);
    if all.len() > PCM_QUEUE_CAP {
        all.subrange(all.len() - PCM_QUEUE_CAP, all.len() as int)
    } else {
        all
    }
}

/// How many chunks pushing onto a queue of `len` chunks evicts.
pub open spec fn evicted(len: nat) -> nat {
    if len >= PCM_QUEUE_CAP {
        (len + 1 - PCM_QUEUE_CAP) as nat
    } else {
        0
    }
}

/// Bounded PCM inbox. Full -> drop oldest and count a drop.
pub struct PcmQueue {
    pub slots: VecDeque<Vec<u8>>,
    pub drops: u64,
}

impl PcmQueue {
    /// The queue's invariant: never more than [`PCM_QUEUE_CAP`] chunks.
    pub open spec fn wf(&self) -> bool {
        self.slots@.len() <= PCM_QUEUE_CAP
    }

    /// An empty queue with no drops.
    pub fn new() -> (r: Self)
        ensures
            r.wf(),
            r.slots@.len() == 0,
            r.drops == 0,
    {
        PcmQueue { slots: VecDeque::with_capacity(PCM_QUEUE_CAP), drops: 0 }
    }

    /// Appends `chunk`, dropping the oldest chunks (and counting each) while the queue is full.
    pub fn push(&mut self, chunk: Vec<u8>)
        ensures
            final(self).wf(),
            final(self).slots@ == after_push(old(self).slots@, chunk),
            final(self).drops == wrap_add(old(self).drops, evicted(old(self).slots@.len())),
    {
        let ghost all = self.slots@.push(chunk);
        let ghost start = self.drops;
        let n0_exec = self.slots.len();
        let ghost n0 = self.slots@.len();
        let mut k: usize = 0;
        while self.slots.len() >= PCM_QUEUE_CAP
            invariant
                n0 == old(self).slots@.len(),
                n0 == n0_exec,
                start == old(self).drops,
                all == old(self).slots@.push(chunk),
                k <= n0,
                self.slots@ == old(self).slots@.subrange(k as int, n0 as int),
                self.drops == wrap_add(start, k as nat),
                n0 >= PCM_QUEUE_CAP ==> k <= n0 + 1 - PCM_QUEUE_CAP,
                n0 < PCM_QUEUE_CAP ==> k == 0,
            decreases self.slots@.len(),
        {
            let _ = self.slots.pop_front();
            self.drops = if self.drops == u64::MAX {
                0
            } else {
                self.drops + 1
            };
            k = k + 1;
            assert(self.slots@ =~= old(self).slots@.subrange(k as int, n0 as int));
        }
        self.slots.push_back(chunk);
        proof {
            if n0 >= PCM_QUEUE_CAP {
                assert(k == n0 + 1 - PCM_QUEUE_CAP);
                assert(self.slots@ =~= all.subrange(all.len() - PCM_QUEUE_CAP, all.len() as int));
            } else {
                assert(self.slots@ =~= all);
            }
        }
    }

    /// Takes every queued chunk, oldest first, and leaves the queue empty.
    pub fn pop_all(&mut self) -> (r: Vec<Vec<u8>>)
        ensures
            final(self).wf(),
            r@ == old(self).slots@,
            final(self).slots@.len() == 0,
            final(self).drops == old(self).drops,
    {
        let mut out: Vec<Vec<u8>> = Vec::new();
        let ghost n0 = self.slots@.len();
        while self.slots.len() > 0
            invariant
                n0 == old(self).slots@.len(),
                self.drops == old(self).drops,
                out@.len() + self.slots@.len() == n0,
                out@ + self.slots@ == old(self).slots@,
            decreases self.slots@.len(),
        {
            let ghost before = self.slots@;
            match self.slots.pop_front() {
                Some(c) => {
                    out.push(c);
                },
                None => {},
            }
            assert(out@ + self.slots@ =~= old(self).slots@);
        }
        assert(out@ =~= old(self).slots@);
        out
    }

    /// Chunks dropped so far.
    pub fn drops(&self) -> (r: u64)
        ensures
            r == self.drops,
    {
        self.drops
    }
}

} // verus!
