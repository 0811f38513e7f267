//! Points in time, as the evaluator compares them.

use vstd::prelude::*;

verus! {

/// A point in time: whole seconds since the Unix epoch, and the nanoseconds
/// that have passed within that second.
///
/// Instants are ordered by `seconds` first and by `nanos` second. `nanos` may
/// exceed 999,999,999 while a leap second is in progress; such an instant still
/// precedes every instant of the following second.
#[derive(Clone, Copy, Debug, PartialEq, Eq, Hash, Structural)]
pub struct Instant {
    pub seconds: i64,
    pub nanos: u32,
}

impl Instant {
    /// `self` is strictly earlier than `other`.
    pub open spec fn before(self, other: Instant) -> bool {
        self.seconds < other.seconds || (self.seconds == other.seconds && self.nanos < other.nanos)
    }

    /// `self` is strictly later than `other`.
    pub open spec fn after(self, other: Instant) -> bool {
        other.before(self)
    }

    /// `self` lies in the closed interval from `start` to `end`, where a
    /// missing bound leaves that side open.
    pub open spec fn within(self, start: Option<Instant>, end: Option<Instant>) -> bool {
        &&& start matches Some(s) ==> !self.before(s)
        &&& end matches Some(e) ==> !self.after(e)
    }

    pub fn new(seconds: i64, nanos: u32) -> (instant: Instant)
        ensures
            instant.seconds == seconds,
            instant.nanos == nanos,
    {
        Instant { seconds, nanos }
    }

    pub fn is_before(&self, other: &Instant) -> (r: bool)
        ensures
            r == self.before(*other),
    {
        self.seconds < other.seconds || (self.seconds == other.seconds && self.nanos < other.nanos)
    }

    pub fn is_after(&self, other: &Instant) -> (r: bool)
        ensures
            r == self.after(*other),
    {
        other.is_before(self)
    }

    pub fn is_within(&self, start: &Option<Instant>, end: &Option<Instant>) -> (r: bool)
        ensures
            r == self.within(*start, *end),
    {
        let after_start = match start {
            Some(s) => !self.is_before(s),
            None => true,
        };
        let before_end = match end {
            Some(e) => !self.is_after(e),
            None => true,
        };
        after_start && before_end
    }
}

} // verus!
