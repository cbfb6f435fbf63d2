//! The countdown clock: remaining time in the current phase, held as
//! minutes and seconds, derivable to and from a millisecond count.

use vstd::prelude::*;

use crate::text::digit_str;
use crate::text::spec_digit;

verus! {

/// A zero-padded `MM:SS` dial reading.
pub open spec fn spec_mmss(m: int, s: int) -> Seq<char>
    recommends
        0 <= m < 100 && 0 <= s < 100,
{
    seq![spec_digit(m / 10), spec_digit(m % 10), ':', spec_digit(s / 10), spec_digit(s % 10)]
}

/// Remaining time in the current phase. Both fields stay within `[0, 59]`,
/// so the clock represents at most 59 minutes 59 seconds; there is no hour
/// rollover.
pub struct Clock {
    pub minutes: u64,
    pub seconds: u64,
}

impl Clock {
    /// Invariant: minutes and seconds each fit on a sexagesimal dial.
    pub open spec fn wf(&self) -> bool {
        self.minutes <= 59 && self.seconds <= 59
    }

    /// The remaining time this clock shows, in milliseconds.
    pub open spec fn spec_ms(&self) -> int {
        self.minutes * 60000 + self.seconds * 1000
    }

    pub fn new() -> (c: Clock)
        ensures
            c.wf(),
            c.minutes == 0,
            c.seconds == 0,
    {
        Clock { minutes: 0, seconds: 0 }
    }

    /// Sets the clock from a millisecond count: minutes and seconds are the
    /// corresponding dial positions; anything past the hour wraps, anything
    /// under a second is truncated.
    pub fn set_time_ms(&mut self, ms: u64)
        ensures
            final(self).minutes == (ms as int / 60000) % 60,
            final(self).seconds == (ms as int / 1000) % 60,
            final(self).wf(),
    {
        self.minutes = (ms / (1000 * 60)) % 60;
        self.seconds = (ms / 1000) % 60;
    }

    /// Sets the clock to a whole number of minutes.
    pub fn set_time_minutes(&mut self, minutes: u64)
        requires
            minutes * 60000 <= u64::MAX,
        ensures
            final(self).minutes == (minutes as int * 60000 / 60000) % 60,
            final(self).seconds == (minutes as int * 60000 / 1000) % 60,
            final(self).wf(),
    {
        self.set_time_ms(minutes * 60000)
    }

    /// The remaining milliseconds. Takes a mutable receiver for parity with
    /// its callers, but never changes the clock.
    pub fn get_ms_from_time(&mut self) -> (ms: u64)
        requires
            old(self).wf(),
        ensures
            *final(self) == *old(self),
            ms == old(self).spec_ms(),
    {
        (self.minutes * 60000) + (self.seconds * 1000)
    }

    /// Subtracts one second. Calling this on a clock at zero would wrap
    /// around, so a full second must remain.
    pub fn decrement_one_second(&mut self)
        requires
            old(self).wf(),
            old(self).spec_ms() >= 1000,
        ensures
            final(self).wf(),
            final(self).spec_ms() == old(self).spec_ms() - 1000,
            final(self).seconds * 1000 == (old(self).spec_ms() - 1000) % 60000,
    {
        let ghost om: u64 = old(self).minutes;
        let ghost os: u64 = old(self).seconds;
        let mut time_in_ms = self.get_ms_from_time();
        time_in_ms -= 1000;
        self.set_time_ms(time_in_ms);
        proof {
            assert(time_in_ms % 1000 == 0) by (nonlinear_arith)
                requires
                    time_in_ms == om * 60000 + os * 1000 - 1000,
                    om <= 59 && os <= 59,
            ;
            assert(self.minutes * 60000 + self.seconds * 1000 == time_in_ms - time_in_ms % 1000)
                by (nonlinear_arith)
                requires
                    self.minutes == (time_in_ms as int / 60000) % 60,
                    self.seconds == (time_in_ms as int / 1000) % 60,
                    time_in_ms < 3600000,
            ;
            assert(self.seconds * 1000 == time_in_ms % 60000) by (nonlinear_arith)
                requires
                    self.seconds == (time_in_ms as int / 1000) % 60,
                    time_in_ms % 1000 == 0,
                    time_in_ms < u64::MAX,
            ;
        }
    }

    /// Renders the clock as a zero-padded `MM:SS` string.
    pub fn get_time(&self) -> (r: String)
        requires
            self.wf(),
        ensures
            r@ == spec_mmss(self.minutes as int, self.seconds as int),
    {
        proof {
            reveal_strlit(":");
        }
        let mut r = String::from_str(digit_str(self.minutes / 10));
        r.append(digit_str(self.minutes % 10));
        r.append(":");
        r.append(digit_str(self.seconds / 10));
        r.append(digit_str(self.seconds % 10));
        proof {
            assert(r@ =~= spec_mmss(self.minutes as int, self.seconds as int));
        }
        r
    }
}

/// Setting a clock from any count under an hour and reading it back loses
/// exactly the sub-second remainder: a clock that `set_time_ms(ms)`
/// produced shows `ms - ms % 1000` milliseconds.
pub proof fn lemma_clock_ms_roundtrip(c: Clock, ms: u64)
    requires
        ms < 3600000,
        c.minutes == (ms as int / 60000) % 60,
        c.seconds == (ms as int / 1000) % 60,
    ensures
        c.spec_ms() == ms - ms % 1000,
{
    assert(((ms as int / 60000) % 60) * 60000 + ((ms as int / 1000) % 60) * 1000 == ms - ms % 1000)
        by (nonlinear_arith)
        requires
            ms < 3600000,
    ;
}

} // verus!
