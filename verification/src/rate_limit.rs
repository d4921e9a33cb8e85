//! A sliding-window rate limiter's decision core.
//!
//! The limiter is a pure state machine over plain millisecond
//! timestamps: the host hands in the current time and performs the
//! refusal; nothing here reads a clock.

use vstd::prelude::*;

verus! {

/// Whether a hit recorded at `t` still falls inside the window ending
/// at `now`. A hit from the future counts as age zero.
pub open spec fn in_window(t: u64, now: u64, window: u64) -> bool {
    (if t <= now {
        now - t
    } else {
        0
    }) < window
}

/// Admits at most `max` hits per sliding window of `window` time units.
pub struct RateLimiter {
    max: usize,
    window: u64,
    hits: Vec<u64>,
}

impl RateLimiter {
    /// The largest number of hits admitted per window.
    pub closed spec fn spec_max(&self) -> usize {
        self.max
    }

    /// The window's length, in the host's time unit.
    pub closed spec fn spec_window(&self) -> u64 {
        self.window
    }

    /// The timestamps of the hits currently on record.
    pub closed spec fn spec_hits(&self) -> Seq<u64> {
        self.hits@
    }

    pub fn new(max: usize, window: u64) -> (s: Self)
        ensures
            s.spec_max() == max,
            s.spec_window() == window,
            s.spec_hits() == Seq::<u64>::empty(),
    {
        RateLimiter { max, window, hits: Vec::new() }
    }

    /// Decides one request at time `now`: hits that have left the window
    /// are forgotten, the request is admitted exactly when fewer than
    /// `max` hits remain, and an admitted request is itself recorded.
    pub fn allow(&mut self, now: u64) -> (admitted: bool)
        ensures
            final(self).spec_max() == old(self).spec_max(),
            final(self).spec_window() == old(self).spec_window(),
            ({
                let kept = old(self).spec_hits().filter(
                    |t: u64| in_window(t, now, old(self).spec_window()),
                );
                &&& admitted == (kept.len() < old(self).spec_max())
                &&& final(self).spec_hits() == (if admitted {
                    kept.push(now)
                } else {
                    kept
                })
            }),
    {
        let ghost pred = |t: u64| in_window(t, now, self.window);
        let mut kept: Vec<u64> = Vec::new();
        let n = self.hits.len();
        let mut i: usize = 0;
        proof {
            assert(self.hits@.take(0).filter(pred) =~= Seq::<u64>::empty());
        }
        while i < n
            invariant
                0 <= i <= n,
                n == self.hits@.len(),
                kept@ == self.hits@.take(i as int).filter(pred),
                pred == (|t: u64| in_window(t, now, self.window)),
            decreases n - i,
        {
            let t = self.hits[i];
            let age = if t <= now {
                now - t
            } else {
                0
            };
            proof {
                assert(self.hits@.take(i + 1).drop_last() =~= self.hits@.take(i as int));
                assert(self.hits@.take(i + 1).last() == self.hits@[i as int]);
                reveal(Seq::filter);
            }
            if age < self.window {
                kept.push(t);
            }
            i = i + 1;
        }
        proof {
            assert(self.hits@.take(n as int) =~= self.hits@);
        }
        let admitted = kept.len() < self.max;
        if admitted {
            kept.push(now);
        }
        self.hits = kept;
        admitted
    }
}

} // verus!
