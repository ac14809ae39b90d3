//! Countdown timers, in integer milliseconds: the one-shot and repeating
//! clocks behind wave spawn cooldowns, delayed waves, interference-volume
//! lifespans, hitstun windows, and the round director's delays.

use vstd::prelude::*;

verus! {

/// Upper bound on any timer duration or tick delta, in milliseconds.
pub const TIME_LIMIT: u32 = 1_000_000_000;

/// A countdown clock. A one-shot timer saturates at its duration and then
/// stays finished; a repeating timer wraps and fires again.
#[derive(Clone, Copy, Debug, PartialEq, Eq, Structural)]
pub struct Timer {
    pub duration_ms: u32,
    pub elapsed_ms: u32,
    pub repeating: bool,
}

impl Timer {
    /// A timer is well formed when its duration is positive and bounded and
    /// its elapsed time has not run past the duration.
    pub open spec fn wf(self) -> bool {
        1 <= self.duration_ms <= TIME_LIMIT && self.elapsed_ms <= self.duration_ms
    }

    /// The timer has run for its whole duration.
    pub open spec fn spec_finished(self) -> bool {
        self.elapsed_ms >= self.duration_ms
    }

    /// A fresh one-shot timer.
    pub fn once(duration_ms: u32) -> (r: Timer)
        requires
            1 <= duration_ms <= TIME_LIMIT,
        ensures
            r == (Timer { duration_ms, elapsed_ms: 0, repeating: false }),
            r.wf(),
    {
        Timer { duration_ms, elapsed_ms: 0, repeating: false }
    }

    /// A fresh repeating timer.
    pub fn repeating(duration_ms: u32) -> (r: Timer)
        requires
            1 <= duration_ms <= TIME_LIMIT,
        ensures
            r == (Timer { duration_ms, elapsed_ms: 0, repeating: true }),
            r.wf(),
    {
        Timer { duration_ms, elapsed_ms: 0, repeating: true }
    }

    /// Advance the clock by `dt_ms`. Returns true exactly when the duration
    /// is reached or passed this tick; a repeating timer then wraps its
    /// elapsed time, a one-shot timer saturates.
    pub fn tick(&mut self, dt_ms: u32) -> (fired: bool)
        requires
            old(self).wf(),
            dt_ms <= TIME_LIMIT,
        ensures
            final(self).wf(),
            final(self).duration_ms == old(self).duration_ms,
            final(self).repeating == old(self).repeating,
            fired == (old(self).elapsed_ms + dt_ms >= old(self).duration_ms),
            old(self).repeating ==> final(self).elapsed_ms == (old(self).elapsed_ms + dt_ms) % (
            old(self).duration_ms as int),
            !old(self).repeating ==> final(self).elapsed_ms == if old(self).elapsed_ms + dt_ms
                >= old(self).duration_ms {
                old(self).duration_ms as int
            } else {
                old(self).elapsed_ms + dt_ms
            },
    {
        let sum: u32 = self.elapsed_ms + dt_ms;
        if sum >= self.duration_ms {
            if self.repeating {
                self.elapsed_ms = sum % self.duration_ms;
            } else {
                self.elapsed_ms = self.duration_ms;
            }
            true
        } else {
            proof {
                vstd::arithmetic::div_mod::lemma_small_mod(sum as nat, self.duration_ms as nat);
            }
            self.elapsed_ms = sum;
            false
        }
    }

    /// The timer has run for its whole duration.
    pub fn finished(&self) -> (r: bool)
        ensures
            r == self.spec_finished(),
    {
        self.elapsed_ms >= self.duration_ms
    }

    /// Start the countdown over.
    pub fn reset(&mut self)
        ensures
            final(self).duration_ms == old(self).duration_ms,
            final(self).repeating == old(self).repeating,
            final(self).elapsed_ms == 0,
    {
        self.elapsed_ms = 0;
    }

    /// Change the duration, keeping the elapsed time (clamped to the new
    /// duration so the timer stays well formed).
    pub fn set_duration(&mut self, duration_ms: u32)
        requires
            old(self).wf(),
            1 <= duration_ms <= TIME_LIMIT,
        ensures
            final(self).wf(),
            final(self).duration_ms == duration_ms,
            final(self).repeating == old(self).repeating,
            final(self).elapsed_ms == if old(self).elapsed_ms <= duration_ms {
                old(self).elapsed_ms as int
            } else {
                duration_ms as int
            },
    {
        self.duration_ms = duration_ms;
        if self.elapsed_ms > duration_ms {
            self.elapsed_ms = duration_ms;
        }
    }

    /// How far the timer has run, in permille of its duration.
    pub fn fraction_permille(&self) -> (r: u32)
        requires
            self.wf(),
        ensures
            r == self.elapsed_ms * 1000 / (self.duration_ms as int),
            r <= 1000,
    {
        proof {
            vstd::arithmetic::div_mod::lemma_div_is_ordered(
                self.elapsed_ms * 1000,
                self.duration_ms * 1000,
                self.duration_ms as int,
            );
            vstd::arithmetic::div_mod::lemma_div_multiples_vanish(
                1000,
                self.duration_ms as int,
            );
            assert(self.elapsed_ms * 1000 <= self.duration_ms * 1000) by (nonlinear_arith)
                requires
                    self.elapsed_ms <= self.duration_ms,
            ;
        }
        ((self.elapsed_ms as u64 * 1000) / (self.duration_ms as u64)) as u32
    }
}

/// A bounded time-to-live: the entity that carries it is despawned when the
/// clock runs out.
#[derive(Clone, Copy, Debug, PartialEq, Eq, Structural)]
pub struct Lifespan {
    pub timer: Timer,
}

impl Lifespan {
    /// A fresh lifespan of `duration_ms`.
    pub fn new(duration_ms: u32) -> (r: Lifespan)
        requires
            1 <= duration_ms <= TIME_LIMIT,
        ensures
            r.timer == (Timer { duration_ms, elapsed_ms: 0, repeating: false }),
            r.timer.wf(),
    {
        Lifespan { timer: Timer::once(duration_ms) }
    }

    /// Advance the clock; true means the lifespan is over and the carrier
    /// should be despawned.
    pub fn tick(&mut self, dt_ms: u32) -> (expired: bool)
        requires
            old(self).timer.wf(),
            !old(self).timer.repeating,
            dt_ms <= TIME_LIMIT,
        ensures
            final(self).timer.wf(),
            expired == (old(self).timer.elapsed_ms + dt_ms >= old(self).timer.duration_ms),
            final(self).timer.duration_ms == old(self).timer.duration_ms,
            final(self).timer.repeating == old(self).timer.repeating,
            !expired ==> final(self).timer.elapsed_ms == old(self).timer.elapsed_ms + dt_ms,
    {
        self.timer.tick(dt_ms)
    }
}

} // verus!
