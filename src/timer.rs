//! Countdown timers, held as plain values and advanced by bevy's `Timer`.

use vstd::prelude::*;

verus! {

/// The longest duration a timer may have, in milliseconds (some 584 years,
/// far beyond any game session): its length in nanoseconds fits in 64 bits.
pub const TIMER_LIMIT_MS: u64 = 18_446_744_073_709;

/// Whether a timer stops when it reaches its duration or starts over.
#[derive(Clone, Copy, Debug, PartialEq, Eq, Structural)]
pub enum TimerMode {
    Once,
    Repeating,
}

/// A timer of `duration_ms` milliseconds.
///
/// A one-shot timer stays finished once its duration is reached, until it is
/// reset. A repeating timer wraps around and is finished only on the ticks
/// that reach its duration.
#[derive(Clone, Copy, Debug, PartialEq, Eq, Structural)]
pub struct GameTimer {
    pub duration_ms: u64,
    pub elapsed_ms: u64,
    pub mode: TimerMode,
    pub finished: bool,
    pub times_finished_this_tick: u32,
}

/// Relies on bevy_time's `Timer::tick`, run on a fresh timer of the given
/// duration and mode whose elapsed time was set first (so neither paused nor
/// finished): elapsed time grows by `delta_ms`; reaching the duration finishes
/// the timer, which then either stops at its duration (once) or keeps the
/// remainder and counts the whole periods passed (repeating; with a zero
/// duration the count is `u32::MAX` and the elapsed time zero). The bound
/// on the duration keeps bevy's remainder, taken in nanoseconds, in 64 bits.
#[verifier::external_body]
fn engine_tick(duration_ms: u64, elapsed_ms: u64, mode: TimerMode, delta_ms: u64) -> (r: (
    u64,
    bool,
    u32,
))
    requires
        duration_ms <= TIMER_LIMIT_MS,
        elapsed_ms + delta_ms <= u64::MAX,
    ensures
        r.1 == (elapsed_ms + delta_ms >= duration_ms),
        !r.1 ==> r.0 == elapsed_ms + delta_ms && r.2 == 0,
        r.1 && mode == TimerMode::Once ==> r.0 == duration_ms && r.2 == 1,
        r.1 && mode == TimerMode::Repeating && duration_ms == 0 ==> r.0 == 0 && r.2 == u32::MAX,
        r.1 && mode == TimerMode::Repeating && duration_ms > 0 ==> r.0 == (elapsed_ms + delta_ms)
            % (duration_ms as int),
        r.1 && mode == TimerMode::Repeating && duration_ms > 0 && (elapsed_ms + delta_ms) / (
        duration_ms as int) <= u32::MAX ==> r.2 == (elapsed_ms + delta_ms) / (duration_ms as int),
{
    let engine_mode = match mode {
        TimerMode::Once => bevy::time::TimerMode::Once,
        TimerMode::Repeating => bevy::time::TimerMode::Repeating,
    };
    let mut t = bevy::time::Timer::new(std::time::Duration::from_millis(duration_ms), engine_mode);
    t.set_elapsed(std::time::Duration::from_millis(elapsed_ms));
    t.tick(std::time::Duration::from_millis(delta_ms));
    (t.elapsed().as_millis() as u64, t.finished(), t.times_finished_this_tick())
}

impl GameTimer {
    /// The elapsed time never passes the duration.
    pub open spec fn wf(self) -> bool {
        self.elapsed_ms <= self.duration_ms <= TIMER_LIMIT_MS
    }

    /// A timer that has just been started.
    pub open spec fn is_fresh(self, duration_ms: u64, mode: TimerMode) -> bool {
        &&& self.duration_ms == duration_ms
        &&& self.mode == mode
        &&& self.elapsed_ms == 0
        &&& !self.finished
        &&& self.times_finished_this_tick == 0
    }

    /// What a tick of `delta` milliseconds leaves, apart from the count of
    /// periods passed (see `tick`).
    pub open spec fn ticked(self, delta: nat) -> (u64, bool) {
        let total = self.elapsed_ms + delta;
        if self.mode == TimerMode::Once && self.finished {
            (self.elapsed_ms, true)
        } else if total < self.duration_ms {
            (total as u64, false)
        } else if self.mode == TimerMode::Once {
            (self.duration_ms, true)
        } else if self.duration_ms == 0 {
            (0, true)
        } else {
            ((total % (self.duration_ms as int)) as u64, true)
        }
    }

    /// Periods that a tick of `delta` milliseconds completes on a repeating
    /// timer (`u32::MAX` for a zero duration).
    pub open spec fn periods(self, delta: nat) -> int {
        if self.duration_ms == 0 {
            u32::MAX as int
        } else {
            (self.elapsed_ms + delta) / (self.duration_ms as int)
        }
    }

    /// Whether a tick of `delta` milliseconds finishes a one-shot timer now.
    pub open spec fn once_count(self, delta: nat) -> int {
        if !self.finished && self.elapsed_ms + delta >= self.duration_ms {
            1
        } else {
            0
        }
    }

    pub fn new(duration_ms: u64, mode: TimerMode) -> (t: GameTimer)
        requires
            duration_ms <= TIMER_LIMIT_MS,
        ensures
            t.wf(),
            t.is_fresh(duration_ms, mode),
    {
        GameTimer { duration_ms, elapsed_ms: 0, mode, finished: false, times_finished_this_tick: 0 }
    }

    /// `after` is this timer advanced by `delta` milliseconds.
    pub open spec fn tick_post(self, after: GameTimer, delta: nat) -> bool {
        &&& after.wf()
        &&& after.duration_ms == self.duration_ms
        &&& after.mode == self.mode
        &&& (after.elapsed_ms, after.finished) == self.ticked(delta)
        &&& self.mode == TimerMode::Once ==> after.times_finished_this_tick == self.once_count(
            delta,
        )
        &&& self.mode == TimerMode::Repeating && self.periods(delta) <= u32::MAX
            ==> after.times_finished_this_tick == self.periods(delta)
    }

    /// Advances the timer by `delta_ms` milliseconds.
    pub fn tick(&mut self, delta_ms: u32)
        requires
            old(self).wf(),
        ensures
            old(self).tick_post(*final(self), delta_ms as nat),
    {
        if self.mode == TimerMode::Once && self.finished {
            self.times_finished_this_tick = 0;
            return ;
        }
        let (elapsed, finished, times) = engine_tick(
            self.duration_ms,
            self.elapsed_ms,
            self.mode,
            delta_ms as u64,
        );
        proof {
            if self.mode == TimerMode::Repeating && self.duration_ms > 0 {
                let total = self.elapsed_ms + delta_ms;
                vstd::arithmetic::div_mod::lemma_mod_bound(total as int, self.duration_ms as int);
                if total < self.duration_ms {
                    vstd::arithmetic::div_mod::lemma_basic_div(total as int, self.duration_ms as int);
                }
            }
        }
        self.elapsed_ms = elapsed;
        self.finished = finished;
        self.times_finished_this_tick = times;
    }

    pub fn finished(&self) -> (r: bool)
        ensures
            r == self.finished,
    {
        self.finished
    }

    /// Whether the last tick reached the duration.
    pub fn just_finished(&self) -> (r: bool)
        ensures
            r == (self.times_finished_this_tick > 0),
    {
        self.times_finished_this_tick > 0
    }

    pub fn duration_ms(&self) -> (r: u64)
        ensures
            r == self.duration_ms,
    {
        self.duration_ms
    }

    pub fn elapsed_ms(&self) -> (r: u64)
        ensures
            r == self.elapsed_ms,
    {
        self.elapsed_ms
    }

    pub fn remaining_ms(&self) -> (r: u64)
        requires
            self.wf(),
        ensures
            r == self.duration_ms - self.elapsed_ms,
    {
        self.duration_ms - self.elapsed_ms
    }

    /// Starts the timer over, keeping its duration and mode.
    pub fn reset(&mut self)
        requires
            old(self).wf(),
        ensures
            final(self).wf(),
            final(self).is_fresh(old(self).duration_ms, old(self).mode),
    {
        self.elapsed_ms = 0;
        self.finished = false;
        self.times_finished_this_tick = 0;
    }
}

impl Default for GameTimer {
    /// A timer of zero duration that has not yet been ticked: not finished,
    /// with nothing remaining.
    fn default() -> (t: GameTimer)
        ensures
            t.wf(),
            t.is_fresh(0, TimerMode::Once),
    {
        GameTimer::new(0, TimerMode::Once)
    }
}

} // verus!
