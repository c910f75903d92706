//! Fixed-window rate limiter. The window has a fixed start and length; the
//! counter resets when the window elapses. Bursts can occur exactly at window
//! boundaries: that is the intended scheme, not a sliding window.
//!
//! The limiter itself never sleeps: `advance_by` reports how long the caller
//! must wait before the counted units may proceed, and accounts as if the
//! caller waited that long. Time is supplied by the caller in milliseconds
//! from a monotonic clock.
use vstd::prelude::*;

verus! {

/// The outcome of advancing the throttle.
#[derive(Clone, Copy, Debug)]
pub struct ThrottleAdvance {
    /// How long the caller must wait before proceeding, in milliseconds.
    pub wait_ms: u64,
    /// The remaining unit budget of the current window after the advance;
    /// zero when the window is now over its maximum.
    pub remaining: u64,
}

/// A fixed-window counter gating throughput.
#[derive(Clone, Copy, Debug)]
pub struct Throttle {
    pub max_per_period: u64,
    pub period_ms: u64,
    pub count_start_ms: u64,
    pub current_count: u64,
}

impl Throttle {
    /// The per-window unit budget.
    pub open spec fn spec_max(&self) -> u64 {
        self.max_per_period
    }

    /// The window length in milliseconds.
    pub open spec fn spec_period_ms(&self) -> u64 {
        self.period_ms
    }

    /// When the current window began, in milliseconds.
    pub open spec fn spec_count_start_ms(&self) -> u64 {
        self.count_start_ms
    }

    /// How many units the current window has counted.
    pub open spec fn spec_count(&self) -> u64 {
        self.current_count
    }

    /// Time never runs backwards past the window start.
    pub open spec fn now_valid(&self, now_ms: u64) -> bool {
        now_ms >= self.count_start_ms
    }

    pub fn new(max_per_period: u64, period_ms: u64, now_ms: u64) -> (r: Self)
        ensures
            r.spec_max() == max_per_period,
            r.spec_period_ms() == period_ms,
            r.spec_count_start_ms() == now_ms,
            r.spec_count() == 0,
    {
        Throttle { max_per_period, period_ms, count_start_ms: now_ms, current_count: 0 }
    }

    /// A throttle whose window is one second.
    pub fn per_second(max_per_period: u64, now_ms: u64) -> (r: Self)
        ensures
            r.spec_max() == max_per_period,
            r.spec_period_ms() == 1000,
            r.spec_count_start_ms() == now_ms,
            r.spec_count() == 0,
    {
        Throttle::new(max_per_period, 1000, now_ms)
    }

    /// A throttle whose window is one minute.
    pub fn per_minute(max_per_period: u64, now_ms: u64) -> (r: Self)
        ensures
            r.spec_max() == max_per_period,
            r.spec_period_ms() == 60000,
            r.spec_count_start_ms() == now_ms,
            r.spec_count() == 0,
    {
        Throttle::new(max_per_period, 60000, now_ms)
    }

    /// The state after the window-elapse reset that `advance_by` applies first.
    pub open spec fn spec_after_window_reset(&self, now_ms: u64) -> Throttle {
        if now_ms - self.count_start_ms >= self.period_ms {
            Throttle { current_count: 0, count_start_ms: now_ms, ..*self }
        } else {
            *self
        }
    }

    /// The wait that `advance_by` asks for: the rest of the window, when the
    /// window's budget is already spent.
    pub open spec fn spec_advance_wait(&self, now_ms: u64) -> u64 {
        let s = self.spec_after_window_reset(now_ms);
        if s.current_count >= s.max_per_period {
            (s.period_ms - (now_ms - s.count_start_ms)) as u64
        } else {
            0
        }
    }

    /// The remaining budget of a window that has counted `count` units.
    pub open spec fn spec_remaining_of(max: u64, count: u64) -> u64 {
        if count > max {
            0
        } else {
            (max - count) as u64
        }
    }

    /// Advances the throttle by the given amount. Returns how long the caller
    /// must wait before sending the counted units, and the remaining budget.
    /// If the window has elapsed the counter resets; if the budget was already
    /// spent, the wait runs to the end of the window and a fresh window is
    /// accounted from there. The count saturates instead of overflowing.
    pub fn advance_by(&mut self, by: u64, now_ms: u64) -> (r: ThrottleAdvance)
        requires
            old(self).now_valid(now_ms),
            now_ms + old(self).spec_period_ms() <= u64::MAX,
        ensures
            final(self).spec_max() == old(self).spec_max(),
            final(self).spec_period_ms() == old(self).spec_period_ms(),
            r.wait_ms == old(self).spec_advance_wait(now_ms),
            ({
                let base = old(self).spec_after_window_reset(now_ms);
                let start = if base.spec_count() >= base.spec_max() {
                    (now_ms + r.wait_ms) as u64
                } else {
                    base.spec_count_start_ms()
                };
                let before = if base.spec_count() >= base.spec_max() {
                    0
                } else {
                    base.spec_count()
                };
                let counted = if before + by <= u64::MAX {
                    (before + by) as u64
                } else {
                    u64::MAX
                };
                &&& final(self).spec_count_start_ms() == start
                &&& final(self).spec_count() == counted
                &&& r.remaining == Throttle::spec_remaining_of(final(self).spec_max(), counted)
            }),
    {
        if now_ms - self.count_start_ms >= self.period_ms {
            self.current_count = 0;
            self.count_start_ms = now_ms;
        }

        let mut wait_ms: u64 = 0;
        if self.current_count >= self.max_per_period {
            wait_ms = self.period_ms - (now_ms - self.count_start_ms);
            self.current_count = 0;
            self.count_start_ms = now_ms + wait_ms;
        }

        self.current_count = match self.current_count.checked_add(by) {
            Some(c) => c,
            None => u64::MAX,
        };

        let remaining = if self.current_count > self.max_per_period {
            0
        } else {
            self.max_per_period - self.current_count
        };

        ThrottleAdvance { wait_ms, remaining }
    }

    /// Advances the throttle by one unit.
    pub fn advance(&mut self, now_ms: u64) -> (r: ThrottleAdvance)
        requires
            old(self).now_valid(now_ms),
            now_ms + old(self).spec_period_ms() <= u64::MAX,
        ensures
            final(self).spec_max() == old(self).spec_max(),
            final(self).spec_period_ms() == old(self).spec_period_ms(),
            r.wait_ms == old(self).spec_advance_wait(now_ms),
    {
        self.advance_by(1, now_ms)
    }

    /// If the window's budget is spent, how long the caller should wait for
    /// the window to end; zero otherwise.
    pub fn wait_if_exhausted(&self, now_ms: u64) -> (r: u64)
        requires
            self.now_valid(now_ms),
        ensures
            r == ({
                if now_ms - self.spec_count_start_ms() >= self.spec_period_ms() {
                    0u64
                } else if self.spec_count() >= self.spec_max() {
                    (self.spec_period_ms() - (now_ms - self.spec_count_start_ms())) as u64
                } else {
                    0u64
                }
            }),
    {
        if now_ms - self.count_start_ms >= self.period_ms {
            return 0;
        }
        if self.current_count >= self.max_per_period {
            self.period_ms - (now_ms - self.count_start_ms)
        } else {
            0
        }
    }

    /// Returns the remaining unit budget for the current window.
    pub fn remaining(&self, now_ms: u64) -> (r: u64)
        requires
            self.now_valid(now_ms),
        ensures
            r == ({
                if now_ms - self.spec_count_start_ms() >= self.spec_period_ms() {
                    self.spec_max()
                } else {
                    Throttle::spec_remaining_of(self.spec_max(), self.spec_count())
                }
            }),
    {
        if now_ms - self.count_start_ms >= self.period_ms {
            return self.max_per_period;
        }
        if self.current_count > self.max_per_period {
            0
        } else {
            self.max_per_period - self.current_count
        }
    }

    /// A fresh throttle with the same limits, starting a new window now; how
    /// the limiter is duplicated when one configuration serves several tasks.
    pub fn renewed(&self, now_ms: u64) -> (r: Self)
        ensures
            r.spec_max() == self.spec_max(),
            r.spec_period_ms() == self.spec_period_ms(),
            r.spec_count_start_ms() == now_ms,
            r.spec_count() == 0,
    {
        Throttle::new(self.max_per_period, self.period_ms, now_ms)
    }
}

} // verus!
