//! The pause-aware gravity ticker: a wall-clock-driven tick counter,
//! decoupled from the simulation logic.
//!
//! Time is measured in integer microseconds on a monotonic clock supplied by
//! the host. `last` is the time of the last consumed tick boundary and
//! `interval` the spacing of ticks; while paused, `save_point` records the
//! pause time, and resuming shifts `last` forward by exactly the paused
//! span, so paused time never counts toward gravity.

use vstd::prelude::*;

verus! {

pub struct Ticker {
    pub last: u64,
    pub save_point: Option<u64>,
    pub interval: u64,
}

/// Tick spacing is positive, and a recorded pause point never precedes the
/// last consumed tick boundary.
pub open spec fn ticker_wf(t: Ticker) -> bool {
    t.interval > 0 && match t.save_point {
        Some(p) => p >= t.last,
        None => true,
    }
}

impl Ticker {
    /// A ticker whose first tick falls `interval` after `now`.
    pub fn new(now: u64, interval: u64) -> (t: Ticker)
        requires
            interval > 0,
        ensures
            t.last == now,
            t.save_point is None,
            t.interval == interval,
            ticker_wf(t),
    {
        Ticker { last: now, save_point: None, interval }
    }

    /// How many whole tick intervals have elapsed since the last consumed
    /// boundary; consumes them by advancing `last` to the newest boundary.
    /// May return 0. Must not be called while paused.
    pub fn ticks(&mut self, now: u64) -> (n: u64)
        requires
            ticker_wf(*old(self)),
            old(self).save_point is None,
            now >= old(self).last,
        ensures
            n == (now - old(self).last) / old(self).interval as int,
            final(self).last == old(self).last + n * old(self).interval,
            final(self).last <= now,
            now - final(self).last < old(self).interval,
            final(self).interval == old(self).interval,
            final(self).save_point is None,
            ticker_wf(*final(self)),
    {
        let n = (now - self.last) / self.interval;
        proof {
            vstd::arithmetic::div_mod::lemma_fundamental_div_mod(
                now - self.last,
                self.interval as int,
            );
            vstd::arithmetic::div_mod::lemma_mod_bound(now - self.last, self.interval as int);
            vstd::arithmetic::mul::lemma_mul_is_commutative(
                n as int,
                self.interval as int,
            );
        }
        self.last = self.last + n * self.interval;
        n
    }

    /// Changes future tick spacing; the last consumed boundary stays as it
    /// was.
    pub fn set_interval(&mut self, interval: u64)
        requires
            interval > 0,
        ensures
            *final(self) == (Ticker { interval, ..*old(self) }),
    {
        self.interval = interval;
    }

    /// Records `now` as the pause point. The caller must not consume ticks
    /// again until `resume` is called.
    pub fn pause(&mut self, now: u64)
        requires
            ticker_wf(*old(self)),
            now >= old(self).last,
        ensures
            *final(self) == (Ticker { save_point: Some(now), ..*old(self) }),
            ticker_wf(*final(self)),
    {
        self.save_point = Some(now);
    }

    /// Ends a pause: shifts `last` forward by exactly the paused span, so
    /// the time already elapsed toward the next tick at the moment of
    /// pausing is preserved, and clears the pause point. Without a recorded
    /// pause, only clears the pause point.
    pub fn resume(&mut self, now: u64)
        requires
            ticker_wf(*old(self)),
            match old(self).save_point {
                Some(p) => now >= p,
                None => true,
            },
        ensures
            final(self).last == match old(self).save_point {
                Some(p) => old(self).last + (now - p),
                None => old(self).last as int,
            },
            final(self).save_point is None,
            final(self).interval == old(self).interval,
            ticker_wf(*final(self)),
            final(self).last <= now || old(self).save_point is None,
    {
        if let Some(save_point) = self.save_point {
            self.last = self.last + (now - save_point);
        }
        self.save_point = None;
    }
}

/// Paused wall-clock time never counts toward gravity: pausing at `p` and
/// resuming at `r` shifts the last tick boundary to `t.last + (r - p)`, so
/// the ticks consumed at any later `now` are exactly those that the instant
/// `now - (r - p)` would have produced had the pause not happened.
pub proof fn lemma_pause_resume_invariance(t: Ticker, p: u64, r: u64, now: u64)
    requires
        ticker_wf(t),
        t.save_point is None,
        t.last <= p <= r <= now,
    ensures
        (now - (t.last + (r - p))) / t.interval as int == ((now - (r - p)) - t.last)
            / t.interval as int,
        now - (t.last + (r - p)) == (p - t.last) + (now - r),
{
}

} // verus!
