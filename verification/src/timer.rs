//! Countdown timers over whole nanoseconds.

use vstd::prelude::*;

verus! {

/// How a timer behaves once its duration has elapsed.
#[derive(Clone, Copy, Debug, PartialEq, Eq, Structural)]
pub enum TimerMode {
    /// Stops at its duration and reports completion once.
    Once,
    /// Starts over, keeping what elapsed beyond the duration.
    Repeating,
}

/// A timer: the plain values that one tick reads and writes.
#[derive(Clone, Copy, Debug, PartialEq, Eq, Structural)]
pub struct Timer {
    /// Nanoseconds from start to completion.
    pub duration: u64,
    /// Nanoseconds counted so far.
    pub elapsed: u64,
    pub mode: TimerMode,
    /// Whether the last tick reached the duration (for a one-shot timer: any tick).
    pub finished: bool,
    /// How often the duration was reached during the last tick.
    pub times_finished_this_tick: u32,
}

/// What one tick of `delta` makes of a timer that is still running:
/// the new elapsed time, whether it finished, and how often.
pub open spec fn tick_outcome(duration: u64, mode: TimerMode, elapsed: u64, delta: u64) -> (
    u64,
    bool,
    u32,
) {
    let total = elapsed as nat + delta as nat;
    if total < duration {
        (total as u64, false, 0u32)
    } else if mode == TimerMode::Once {
        (duration, true, 1u32)
    } else if duration == 0 {
        (0u64, true, u32::MAX)
    } else {
        ((total % duration as nat) as u64, true, ((total / duration as nat) % 0x1_0000_0000) as u32)
    }
}

/// Calls `bevy::time::Timer::tick` with `delta` on a timer that
/// `bevy::time::Timer::new` made with the given duration and mode and whose
/// elapsed time `set_elapsed` put to `elapsed`, and reads the timer's
/// `elapsed`, `finished` and `times_finished_this_tick` afterwards. As the
/// source of `tick` shows for a timer that is not paused and, if one-shot,
/// not finished: the elapsed time grows by `delta`; below the duration
/// nothing else happens; a one-shot timer that reaches the duration stops
/// there and counts one completion; a repeating one keeps the remainder and
/// counts the quotient, cut to 32 bits (with a zero duration it counts
/// `u32::MAX` and keeps nothing).
#[verifier::external_body]
fn engine_tick(duration: u64, mode: TimerMode, elapsed: u64, delta: u64) -> (r: (u64, bool, u32))
    ensures
        r == tick_outcome(duration, mode, elapsed, delta),
{
    let engine_mode = match mode {
        TimerMode::Once => bevy::time::TimerMode::Once,
        TimerMode::Repeating => bevy::time::TimerMode::Repeating,
    };
    let mut t = bevy::time::Timer::new(std::time::Duration::from_nanos(duration), engine_mode);
    t.set_elapsed(std::time::Duration::from_nanos(elapsed));
    t.tick(std::time::Duration::from_nanos(delta));
    (t.elapsed().as_nanos() as u64, t.finished(), t.times_finished_this_tick())
}

impl Timer {
    /// The timer after a tick of `delta` nanoseconds. A one-shot timer that
    /// has finished stays as it is and reports no new completion.
    pub open spec fn ticked(self, delta: u64) -> Timer {
        if self.mode == TimerMode::Once && self.finished {
            Timer { times_finished_this_tick: 0, ..self }
        } else {
            let out = tick_outcome(self.duration, self.mode, self.elapsed, delta);
            Timer { elapsed: out.0, finished: out.1, times_finished_this_tick: out.2, ..self }
        }
    }

    /// Whether the last tick completed the timer at least once.
    pub open spec fn completed(self) -> bool {
        self.times_finished_this_tick > 0
    }

    /// A timer at rest.
    pub open spec fn fresh(duration: u64, mode: TimerMode) -> Timer {
        Timer { duration, elapsed: 0, mode, finished: false, times_finished_this_tick: 0 }
    }

    pub fn new(duration: u64, mode: TimerMode) -> (t: Timer)
        ensures
            t == Timer::fresh(duration, mode),
    {
        Timer { duration, elapsed: 0, mode, finished: false, times_finished_this_tick: 0 }
    }

    /// Advances the timer by `delta` nanoseconds.
    pub fn tick(&mut self, delta: u64)
        ensures
            *final(self) == old(self).ticked(delta),
    {
        if self.mode == TimerMode::Once && self.finished {
            self.times_finished_this_tick = 0;
        } else {
            let out = engine_tick(self.duration, self.mode, self.elapsed, delta);
            self.elapsed = out.0;
            self.finished = out.1;
            self.times_finished_this_tick = out.2;
        }
    }

    pub fn finished(&self) -> (b: bool)
        ensures
            b == self.finished,
    {
        self.finished
    }

    /// Whether the last tick completed the timer.
    pub fn just_finished(&self) -> (b: bool)
        ensures
            b == self.completed(),
    {
        self.times_finished_this_tick > 0
    }

    /// Puts the timer back to rest, keeping duration and mode.
    pub fn reset(&mut self)
        ensures
            *final(self) == Timer::fresh(old(self).duration, old(self).mode),
    {
        self.elapsed = 0;
        self.finished = false;
        self.times_finished_this_tick = 0;
    }
}

} // verus!
