//! The pomodoro session: a clock and a cycle tracker, driven one countdown
//! tick at a time. Each tick computes a drift-corrected sleep so that real
//! time advances by exactly one tick per iteration, then moves the clock
//! one second forward and reports what to display. The caller performs the
//! actual pause between ticks.

use vstd::prelude::*;

use crate::clock::Clock;
use crate::clock::spec_mmss;
use crate::tracker::PomodoroState;
use crate::tracker::StateTracker;
use crate::tracker::spec_next_order;

verus! {

/// Length of one work phase, in minutes.
pub const POMODORO_TIMER_MINUTES: u64 = 25;

/// Length of one work phase, in milliseconds.
pub const WORK_PHASE_MS: u64 = POMODORO_TIMER_MINUTES * 60000;

/// The sleep that keeps the countdown aligned with real time: one tick
/// (one second) less the drift between true elapsed milliseconds and the
/// milliseconds the countdown has already accounted for, clamped at zero.
pub open spec fn spec_sync_sleep(true_elapsed: int, clock_elapsed: int) -> int {
    if 1000 + clock_elapsed >= true_elapsed {
        1000 + clock_elapsed - true_elapsed
    } else {
        0
    }
}

/// What one countdown tick decides: how long to pause before the next
/// tick, the dial reading to show after it, and whether the countdown has
/// reached zero.
pub struct CountdownTick {
    pub sleep_ms: u64,
    pub display: String,
    pub finished: bool,
}

/// One clock and one cycle tracker, living for one timer invocation.
pub struct PomodoroSession {
    pub pomodoro_tracker: StateTracker,
    pub clock: Clock,
}

impl PomodoroSession {
    /// Invariant: both parts well formed, and the clock never shows more
    /// than one work phase.
    pub open spec fn wf(&self) -> bool {
        &&& self.pomodoro_tracker.wf()
        &&& self.clock.wf()
        &&& self.clock.spec_ms() <= WORK_PHASE_MS
    }

    pub fn new() -> (s: PomodoroSession)
        ensures
            s.wf(),
            s.pomodoro_tracker.current_state == PomodoroState::Idle,
            s.pomodoro_tracker.current_order is None,
            s.clock.spec_ms() == 0,
    {
        PomodoroSession { pomodoro_tracker: StateTracker::new(), clock: Clock::new() }
    }

    /// Begins a work phase: the tracker records the phase start and
    /// advances the cycle ordinal, and the clock is set to a full work
    /// phase. The countdown itself is then driven tick by tick through
    /// `countdown`.
    pub fn start_work(&mut self)
        requires
            old(self).wf(),
        ensures
            final(self).wf(),
            final(self).pomodoro_tracker.current_state == PomodoroState::Working,
            final(self).pomodoro_tracker.current_order == Some(
                spec_next_order(old(self).pomodoro_tracker.current_order) as i64,
            ),
            final(self).pomodoro_tracker.started_at is Some,
            final(self).clock.minutes == POMODORO_TIMER_MINUTES,
            final(self).clock.seconds == 0,
            final(self).clock.spec_ms() == WORK_PHASE_MS,
    {
        self.pomodoro_tracker.set_work_state();
        self.clock.set_time_minutes(POMODORO_TIMER_MINUTES);
    }

    /// One step of the countdown, dispatched on the current phase: only
    /// the working phase counts down; in any other phase nothing happens.
    /// `true_elapsed_ms` is the measured real time since the phase began.
    pub fn countdown(&mut self, true_elapsed_ms: u64) -> (t: Option<CountdownTick>)
        requires
            old(self).wf(),
            old(self).pomodoro_tracker.current_state == PomodoroState::Working
                ==> old(self).clock.spec_ms() >= 1000,
        ensures
            final(self).wf(),
            old(self).pomodoro_tracker.current_state != PomodoroState::Working
                ==> t is None && *final(self) == *old(self),
            old(self).pomodoro_tracker.current_state == PomodoroState::Working ==> {
                &&& t is Some
                &&& final(self).pomodoro_tracker == old(self).pomodoro_tracker
                &&& final(self).clock.spec_ms() == old(self).clock.spec_ms() - 1000
                &&& t->0.sleep_ms == spec_sync_sleep(
                    true_elapsed_ms as int,
                    WORK_PHASE_MS - old(self).clock.spec_ms(),
                )
                &&& t->0.display@ == spec_mmss(
                    final(self).clock.minutes as int,
                    final(self).clock.seconds as int,
                )
                &&& t->0.finished == (final(self).clock.spec_ms() == 0)
            },
    {
        match self.pomodoro_tracker.current_state {
            PomodoroState::Working => Some(self.countdown_work(true_elapsed_ms)),
            _ => None,
        }
    }

    /// One iteration of the work countdown. The drift between
    /// `true_elapsed_ms` (real time since the phase began) and the time
    /// the countdown has already accounted for determines the sleep: one
    /// tick less the drift, clamped at zero, so that on average real time
    /// advances by exactly one tick per iteration. The clock then loses
    /// one second, and the tick reports the new dial reading and whether
    /// zero was reached.
    pub fn countdown_work(&mut self, true_elapsed_ms: u64) -> (t: CountdownTick)
        requires
            old(self).wf(),
            old(self).clock.spec_ms() >= 1000,
        ensures
            final(self).wf(),
            final(self).pomodoro_tracker == old(self).pomodoro_tracker,
            final(self).clock.spec_ms() == old(self).clock.spec_ms() - 1000,
            t.sleep_ms == spec_sync_sleep(
                true_elapsed_ms as int,
                WORK_PHASE_MS - old(self).clock.spec_ms(),
            ),
            t.display@ == spec_mmss(
                final(self).clock.minutes as int,
                final(self).clock.seconds as int,
            ),
            t.finished == (final(self).clock.spec_ms() == 0),
    {
        let remaining = self.clock.get_ms_from_time();
        let clock_elapsed = (POMODORO_TIMER_MINUTES * 60000) - remaining;

        let sleep_ms: u64 = if 1000 + clock_elapsed >= true_elapsed_ms {
            1000 + clock_elapsed - true_elapsed_ms
        } else {
            0
        };

        self.clock.decrement_one_second();

        let display = self.clock.get_time();
        let finished = self.clock.get_ms_from_time() == 0;

        CountdownTick { sleep_ms, display, finished }
    }
}

/// Drift correction: at a tick where the countdown has accounted for `i`
/// whole ticks and real time additionally carries a processing overhead of
/// `k` milliseconds (at most one tick), the computed sleep is exactly
/// `1000 - k`. Sleep plus overhead then advance real time by exactly one
/// tick, so drift does not accumulate with the number of iterations.
pub proof fn lemma_drift_correction(i: nat, k: nat)
    requires
        k <= 1000,
    ensures
        spec_sync_sleep(1000 * i + k as int, 1000 * i as int) == 1000 - k,
        spec_sync_sleep(1000 * i + k as int, 1000 * i as int) + k == 1000,
{
}

} // verus!
