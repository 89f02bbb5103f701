//! Points in time and lengths of time, as whole seconds plus nanoseconds.

use vstd::prelude::*;

verus! {

/// A length of time.
#[derive(Clone, Copy, Debug, PartialEq, Eq, Structural)]
pub struct TimeSpan {
    pub secs: u64,
    pub nanos: u32,
}

/// A point in time, given as the time elapsed since the Unix epoch.
#[derive(Clone, Copy, Debug, PartialEq, Eq, Structural)]
pub struct Timestamp {
    pub secs: u64,
    pub nanos: u32,
}

impl TimeSpan {
    /// The span in nanoseconds.
    pub open spec fn as_nanos(self) -> int {
        self.secs * 1_000_000_000 + self.nanos
    }

    /// A span of whole seconds.
    pub fn from_secs(secs: u64) -> (r: Self)
        ensures
            r.secs == secs,
            r.nanos == 0,
            r.as_nanos() == secs * 1_000_000_000,
    {
        TimeSpan { secs, nanos: 0 }
    }

    /// The span in nanoseconds, as a machine integer.
    pub fn total_nanos(&self) -> (r: u128)
        ensures
            r == self.as_nanos(),
    {
        let secs: u128 = self.secs as u128;
        let nanos: u128 = self.nanos as u128;
        secs * 1_000_000_000 + nanos
    }
}

impl Timestamp {
    /// Nanoseconds elapsed since the Unix epoch.
    pub open spec fn as_nanos(self) -> int {
        self.secs * 1_000_000_000 + self.nanos
    }

    /// Nanoseconds elapsed since the Unix epoch, as a machine integer.
    pub fn total_nanos(&self) -> (r: u128)
        ensures
            r == self.as_nanos(),
    {
        let secs: u128 = self.secs as u128;
        let nanos: u128 = self.nanos as u128;
        secs * 1_000_000_000 + nanos
    }

    /// Whether this point in time lies strictly before the end of a span of
    /// length `span` that started at `start`.
    pub fn is_before_end_of(&self, start: Timestamp, span: TimeSpan) -> (r: bool)
        ensures
            r == (self.as_nanos() < start.as_nanos() + span.as_nanos()),
    {
        self.total_nanos() < start.total_nanos() + span.total_nanos()
    }
}

} // verus!
