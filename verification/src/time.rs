//! Points in time and spans of time, as plain numbers.
//!
//! The event loop never reads a clock.
//! Whoever drives it takes the readings from a monotonic clock
//! and hands them over as nanoseconds counted from an epoch of their choosing.

use vstd::prelude::*;

verus! {

/// A span of time, in nanoseconds.
#[derive(Clone, Copy, Debug, PartialEq, Eq, Structural)]
pub struct Duration {
    pub nanos: u64,
}

/// A reading of the monotonic clock, in nanoseconds since the clock's epoch.
#[derive(Clone, Copy, Debug, PartialEq, Eq, Structural)]
pub struct Instant {
    pub nanos: u64,
}

pub const NANOS_PER_MILLI: u64 = 1_000_000;

impl Duration {
    /// The span covering the given number of milliseconds.
    pub open spec fn spec_from_millis(millis: u64) -> Duration
        recommends
            millis * NANOS_PER_MILLI <= u64::MAX,
    {
        Duration { nanos: (millis * NANOS_PER_MILLI) as u64 }
    }

    #[verifier::when_used_as_spec(spec_from_millis)]
    pub fn from_millis(millis: u64) -> (d: Duration)
        requires
            millis * NANOS_PER_MILLI <= u64::MAX,
        ensures
            d == Self::spec_from_millis(millis),
            d.nanos == millis * NANOS_PER_MILLI,
    {
        Duration { nanos: millis * NANOS_PER_MILLI }
    }
}

impl Instant {
    /// Whether this reading comes strictly before the other.
    pub open spec fn spec_is_before(self, other: Instant) -> bool {
        self.nanos < other.nanos
    }

    #[verifier::when_used_as_spec(spec_is_before)]
    pub fn is_before(self, other: Instant) -> (b: bool)
        ensures
            b == (self.nanos < other.nanos),
    {
        self.nanos < other.nanos
    }

    /// Whether the reading `self + span` can still be represented.
    pub open spec fn can_add(self, span: Duration) -> bool {
        self.nanos + span.nanos <= u64::MAX
    }

    /// The reading that lies `span` after this one.
    pub open spec fn spec_plus(self, span: Duration) -> Instant
        recommends
            self.can_add(span),
    {
        Instant { nanos: (self.nanos + span.nanos) as u64 }
    }

    #[verifier::when_used_as_spec(spec_plus)]
    pub fn plus(self, span: Duration) -> (later: Instant)
        requires
            self.can_add(span),
        ensures
            later == self.spec_plus(span),
            later.nanos == self.nanos + span.nanos,
    {
        Instant { nanos: self.nanos + span.nanos }
    }

    /// `self + span`, or `None` where that reading cannot be represented.
    pub fn checked_plus(self, span: Duration) -> (later: Option<Instant>)
        ensures
            later == if self.can_add(span) { Some(self.spec_plus(span)) } else { None },
    {
        match self.nanos.checked_add(span.nanos) {
            Some(nanos) => Some(Instant { nanos }),
            None => None,
        }
    }

    /// The later of two readings.
    pub open spec fn spec_latest(self, other: Instant) -> Instant {
        if self.nanos >= other.nanos { self } else { other }
    }

    #[verifier::when_used_as_spec(spec_latest)]
    pub fn latest(self, other: Instant) -> (r: Instant)
        ensures
            r == self.spec_latest(other),
    {
        if self.nanos >= other.nanos { self } else { other }
    }
}

} // verus!
