//! A task as the bot sees one: when it was started, when it ended (if it
//! has), and its text. Wall-clock times are carried as plain values — a
//! second count with a nanosecond remainder — so the record stays
//! independent of any calendar library.

use vstd::prelude::*;

verus! {

/// A point in civil time: whole seconds since the common epoch, plus the
/// nanoseconds into that second.
pub struct Timestamp {
    pub secs: i64,
    pub nanos: u32,
}

impl Timestamp {
    /// Invariant: the nanosecond part stays inside one second.
    pub open spec fn wf(&self) -> bool {
        self.nanos < 1000000000
    }

    pub fn new(secs: i64, nanos: u32) -> (t: Timestamp)
        requires
            nanos < 1000000000,
        ensures
            t.wf(),
            t.secs == secs,
            t.nanos == nanos,
    {
        Timestamp { secs, nanos }
    }
}

/// One task: created when added, ended when completed, never otherwise
/// changed.
pub struct Task {
    pub start: Timestamp,
    pub end: Option<Timestamp>,
    pub description: String,
}

impl Task {
    /// Invariant: both recorded times are well formed.
    pub open spec fn wf(&self) -> bool {
        &&& self.start.wf()
        &&& match self.end {
            Option::Some(t) => t.wf(),
            Option::None => true,
        }
    }

    pub fn new(start: Timestamp, description: String) -> (t: Task)
        requires
            start.wf(),
        ensures
            t.wf(),
            t.start == start,
            t.end is None,
            t.description == description,
    {
        Task { start, end: None, description }
    }
}

} // verus!
