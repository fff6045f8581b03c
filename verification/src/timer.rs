//! Countdown timers in whole milliseconds.
//!
//! A once timer saturates at its duration; a repeating timer wraps and
//! reports the completion of the tick that crossed the interval. Both are
//! exact functions of the elapsed milliseconds handed to `tick`.

use vstd::prelude::*;

verus! {

/// Longest duration a timer may be built with: about eleven days.
pub const TIMER_DURATION_LIMIT: u64 = 1000000000;

/// Largest time step a single tick may carry.
pub const TICK_LIMIT: u64 = 1000000000;

#[derive(Clone, Copy, Debug, PartialEq, Eq, Structural)]
pub enum TimerMode {
    Once,
    Repeating,
}

#[derive(Clone, Copy, Debug, PartialEq, Eq, Structural)]
pub struct Timer {
    pub elapsed_ms: u64,
    pub duration_ms: u64,
    pub mode: TimerMode,
    pub just_finished: bool,
}

impl Timer {
    /// Structural invariant: a positive, bounded duration, and the elapsed
    /// time held inside the interval.
    pub open spec fn inv(self) -> bool {
        &&& 1 <= self.duration_ms <= TIMER_DURATION_LIMIT
        &&& match self.mode {
            TimerMode::Once => self.elapsed_ms <= self.duration_ms,
            TimerMode::Repeating => self.elapsed_ms < self.duration_ms,
        }
    }

    /// A once timer has run out (it saturates at its duration).
    pub open spec fn finished_s(self) -> bool {
        self.elapsed_ms >= self.duration_ms
    }

    /// The timer after a tick of `delta` milliseconds.
    pub open spec fn tick_s(self, delta: int) -> Timer {
        let total = self.elapsed_ms + delta;
        match self.mode {
            TimerMode::Once => Timer {
                elapsed_ms: if total >= self.duration_ms {
                    self.duration_ms
                } else {
                    total as u64
                },
                duration_ms: self.duration_ms,
                mode: self.mode,
                just_finished: self.elapsed_ms < self.duration_ms && total >= self.duration_ms,
            },
            TimerMode::Repeating => Timer {
                elapsed_ms: if total >= self.duration_ms {
                    (total % (self.duration_ms as int)) as u64
                } else {
                    total as u64
                },
                duration_ms: self.duration_ms,
                mode: self.mode,
                just_finished: total >= self.duration_ms,
            },
        }
    }

    /// A fresh once timer.
    pub fn new_once(duration_ms: u64) -> (t: Timer)
        requires
            1 <= duration_ms <= TIMER_DURATION_LIMIT,
        ensures
            t == (Timer {
                elapsed_ms: 0u64,
                duration_ms,
                mode: TimerMode::Once,
                just_finished: false,
            }),
            t.inv(),
    {
        Timer { elapsed_ms: 0, duration_ms, mode: TimerMode::Once, just_finished: false }
    }

    /// A fresh repeating timer.
    pub fn new_repeating(duration_ms: u64) -> (t: Timer)
        requires
            1 <= duration_ms <= TIMER_DURATION_LIMIT,
        ensures
            t == (Timer {
                elapsed_ms: 0u64,
                duration_ms,
                mode: TimerMode::Repeating,
                just_finished: false,
            }),
            t.inv(),
    {
        Timer { elapsed_ms: 0, duration_ms, mode: TimerMode::Repeating, just_finished: false }
    }

    /// Advance the timer by `delta_ms` milliseconds.
    pub fn tick(&mut self, delta_ms: u64)
        requires
            old(self).inv(),
            delta_ms <= TICK_LIMIT,
        ensures
            *final(self) == old(self).tick_s(delta_ms as int),
            final(self).inv(),
    {
        let total: u64 = self.elapsed_ms + delta_ms;
        match self.mode {
            TimerMode::Once => {
                if total >= self.duration_ms {
                    self.just_finished = self.elapsed_ms < self.duration_ms;
                    self.elapsed_ms = self.duration_ms;
                } else {
                    self.elapsed_ms = total;
                    self.just_finished = false;
                }
            },
            TimerMode::Repeating => {
                if total >= self.duration_ms {
                    self.elapsed_ms = total % self.duration_ms;
                    self.just_finished = true;
                } else {
                    self.elapsed_ms = total;
                    self.just_finished = false;
                }
            },
        }
    }

    /// Whether a once timer has run out.
    pub fn finished(&self) -> (r: bool)
        ensures
            r == self.finished_s(),
    {
        self.elapsed_ms >= self.duration_ms
    }
}

} // verus!
