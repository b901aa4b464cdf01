//! Instants and spans of time as whole milliseconds.

use vstd::prelude::*;

verus! {

pub const MILLIS_PER_SECOND: i64 = 1_000;

pub const MILLIS_PER_MINUTE: i64 = 60_000;

pub const MILLIS_PER_HOUR: i64 = 3_600_000;

/// An instant: milliseconds since 1970-01-01T00:00:00Z, negative before it.
#[derive(Clone, Copy, Debug, PartialEq, Eq, Structural)]
pub struct Timestamp {
    pub millis: i64,
}

/// `a / b` rounded toward zero, for a positive divisor.
pub open spec fn div_toward_zero(a: int, b: int) -> int
    recommends
        b > 0,
{
    if a >= 0 {
        a / b
    } else {
        -((-a) / b)
    }
}

/// `x` limited to the range that an `i64` holds.
pub open spec fn clamp_i64(x: int) -> int {
    if x < i64::MIN {
        i64::MIN as int
    } else if x > i64::MAX {
        i64::MAX as int
    } else {
        x
    }
}

impl Timestamp {
    /// Milliseconds from `earlier` to `self`; negative when `self` comes first.
    pub open spec fn millis_since(self, earlier: Timestamp) -> int {
        self.millis - earlier.millis
    }

    /// Whole minutes from `earlier` to `self`, rounded toward zero.
    pub open spec fn spec_minutes_since(self, earlier: Timestamp) -> int {
        div_toward_zero(self.millis_since(earlier), MILLIS_PER_MINUTE as int)
    }

    /// Whether more than `span_millis` have passed from `self` to `now`.
    pub open spec fn spec_older_than(self, now: Timestamp, span_millis: int) -> bool {
        now.millis_since(self) > span_millis
    }

    /// The instant `delta` milliseconds after `self`, held at the ends of the
    /// representable range.
    pub open spec fn spec_plus_millis(self, delta: int) -> Timestamp {
        Timestamp { millis: clamp_i64(self.millis + delta) as i64 }
    }

    pub fn from_millis(millis: i64) -> (t: Timestamp)
        ensures
            t.millis == millis,
    {
        Timestamp { millis }
    }

    /// Whole minutes from `earlier` to `self`, rounded toward zero.
    pub fn minutes_since(&self, earlier: Timestamp) -> (minutes: i64)
        ensures
            minutes == self.spec_minutes_since(earlier),
    {
        let diff: i128 = self.millis as i128 - earlier.millis as i128;
        let minutes: i128 = if diff >= 0 {
            diff / 60_000
        } else {
            -((-diff) / 60_000)
        };
        minutes as i64
    }

    /// Whether more than `span_millis` have passed from `self` to `now`.
    pub fn older_than(&self, now: Timestamp, span_millis: i64) -> (older: bool)
        ensures
            older == self.spec_older_than(now, span_millis as int),
    {
        now.millis as i128 - self.millis as i128 > span_millis as i128
    }

    /// The instant `delta` milliseconds after `self`; stops at the ends of the
    /// representable range instead of wrapping.
    pub fn plus_millis(&self, delta: i64) -> (t: Timestamp)
        ensures
            t == self.spec_plus_millis(delta as int),
    {
        let sum: i128 = self.millis as i128 + delta as i128;
        let millis: i64 = if sum < i64::MIN as i128 {
            i64::MIN
        } else if sum > i64::MAX as i128 {
            i64::MAX
        } else {
            sum as i64
        };
        Timestamp { millis }
    }

    /// Whether `self` is no later than `other`.
    pub fn not_after(&self, other: Timestamp) -> (b: bool)
        ensures
            b == (self.millis <= other.millis),
    {
        self.millis <= other.millis
    }
}

/// Adding a span that is not negative never moves an instant backwards.
pub proof fn lemma_plus_millis_monotone(t: Timestamp, delta: int)
    requires
        delta >= 0,
    ensures
        t.millis <= t.spec_plus_millis(delta).millis,
{
}

} // verus!
