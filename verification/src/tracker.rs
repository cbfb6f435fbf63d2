//! The cycle state machine: which pomodoro phase is active, the rotating
//! cycle ordinal, and the instant the current phase began.

use vstd::prelude::*;
use std::time::Duration;
use std::time::Instant;

verus! {

#[verifier::external_type_specification]
#[verifier::external_body]
pub struct ExInstant(Instant);

/// Relies on std::time::Instant::now: an opaque reading of the monotonic
/// clock. Its value depends on when it is called, so nothing is assumed
/// of it.
pub assume_specification[ Instant::now ]() -> (r: Instant);

/// Relies on std::time::Instant::elapsed: the time since the instant was
/// taken. Its value depends on when it is called, so nothing is assumed
/// of it.
pub assume_specification[ Instant::elapsed ](i: &Instant) -> (r: Duration);

/// Relies on std::time::Duration::as_millis: the duration as whole
/// milliseconds. The duration it reads is opaque here, so nothing is
/// assumed of the count.
pub assume_specification[ Duration::as_millis ](d: &Duration) -> (r: u128);

/// The mutually exclusive pomodoro phases. A fresh tracker is in `Idle`.
pub enum PomodoroState {
    Working,
    ShortBreak,
    LongBreak,
    Idle,
}

/// The next cycle ordinal: an ordinal under four advances by one; an unset
/// ordinal, or one that has reached four, starts a new rotation at one.
pub open spec fn spec_next_order(o: Option<i64>) -> int {
    match o {
        Option::Some(n) => if n < 4 {
            n + 1
        } else {
            1
        },
        Option::None => 1,
    }
}

/// The cycle ordinal after `k + 1` advancements from an unset ordinal.
pub open spec fn spec_order_after(k: nat) -> int
    decreases k,
{
    if k == 0 {
        spec_next_order(Option::None)
    } else {
        spec_next_order(Option::Some(spec_order_after((k - 1) as nat) as i64))
    }
}

/// Phase, cycle ordinal, and the instant the current phase began.
pub struct StateTracker {
    pub current_order: Option<i64>,
    pub current_state: PomodoroState,
    pub started_at: Option<Instant>,
}

impl StateTracker {
    /// Invariant: once set, the cycle ordinal stays within one rotation.
    pub open spec fn wf(&self) -> bool {
        match self.current_order {
            Option::Some(n) => 1 <= n <= 4,
            Option::None => true,
        }
    }

    pub fn new() -> (t: StateTracker)
        ensures
            t.wf(),
            t.current_order is None,
            t.current_state == PomodoroState::Idle,
            t.started_at is None,
    {
        StateTracker {
            current_order: None,
            current_state: PomodoroState::Idle,
            started_at: None,
        }
    }

    /// Advances the cycle ordinal one step along the 1, 2, 3, 4, 1, ...
    /// rotation; an unset ordinal starts at 1.
    pub fn increment_cycle(&mut self)
        requires
            old(self).wf(),
        ensures
            final(self).current_order == Some(spec_next_order(old(self).current_order) as i64),
            final(self).current_state == old(self).current_state,
            final(self).started_at == old(self).started_at,
            final(self).wf(),
    {
        let new_order = match self.current_order {
            Some(num) if num < 4 => Some(num + 1),
            _ => Some(1),
        };
        self.current_order = new_order;
    }

    /// Enters the working phase: records the present instant as the phase
    /// start and advances the cycle ordinal.
    pub fn set_work_state(&mut self)
        requires
            old(self).wf(),
        ensures
            final(self).current_state == PomodoroState::Working,
            final(self).current_order == Some(spec_next_order(old(self).current_order) as i64),
            final(self).started_at is Some,
            final(self).wf(),
    {
        let now = Instant::now();
        self.started_at = Some(now);

        self.current_state = PomodoroState::Working;
        self.increment_cycle();
    }

    /// Milliseconds elapsed since the current phase began. The reading
    /// depends on the wall clock, so no value is promised; callers must
    /// hold for every outcome.
    pub fn elapsed_since_start(&self) -> (ms: u64)
        requires
            self.started_at is Some,
    {
        let at = self.started_at.as_ref().unwrap();
        let elapsed = at.elapsed();
        #[verifier::truncate]
        (elapsed.as_millis() as u64)
    }
}

/// From an unset ordinal, repeated advancement rotates through
/// 1, 2, 3, 4, 1, ... with cycle length four: the ordinal after `k + 1`
/// advancements is `k % 4 + 1`.
pub proof fn lemma_cycle_rotation(k: nat)
    ensures
        spec_order_after(k) == k % 4 + 1,
    decreases k,
{
    if k > 0 {
        lemma_cycle_rotation((k - 1) as nat);
    }
}

} // verus!
