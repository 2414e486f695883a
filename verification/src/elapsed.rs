//! A stopwatch for one named piece of work, whose report says how long the
//! work has taken so far.

use vstd::prelude::*;
use crate::clock::{now, nanos_since};
use crate::text::{MAX_DURATION_NANOS, duration_text, format_duration};

verus! {

/// A named stopwatch started when it is made.
pub struct Elapsed {
    started: std::time::Instant,
    identifier: &'static str,
}

/// The report line of a stopwatch named `identifier` after `elapsed`
/// nanoseconds.
pub open spec fn elapsed_text(identifier: Seq<char>, elapsed: u128) -> Seq<char> {
    "ELAPSED: "@ + identifier + " -> "@ + duration_text(elapsed as nat)
}

impl Elapsed {
    /// The stopwatch's name.
    pub closed spec fn name(&self) -> Seq<char> {
        self.identifier@
    }

    /// A stopwatch named `identifier`, started now.
    pub fn new(identifier: &'static str) -> (elapsed: Elapsed)
        ensures
            elapsed.name() == identifier@,
    {
        let started = now();
        Elapsed { started, identifier }
    }

    /// The report line after `elapsed` nanoseconds.
    pub fn report_at(&self, elapsed: u128) -> (line: String)
        requires
            elapsed <= MAX_DURATION_NANOS,
        ensures
            line@ == elapsed_text(self.name(), elapsed),
    {
        let mut line = String::from_str("ELAPSED: ");
        line.append(self.identifier);
        line.append(" -> ");
        let took = format_duration(elapsed);
        line.append(took.as_str());
        line
    }

    /// The report line as it stands now.
    pub fn report(&self) -> (line: String)
        ensures
            exists|elapsed: u128|
                elapsed <= MAX_DURATION_NANOS && line@ == elapsed_text(self.name(), elapsed),
    {
        let elapsed = nanos_since(&self.started);
        self.report_at(elapsed)
    }
}

} // verus!
