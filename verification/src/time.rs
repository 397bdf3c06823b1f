//! Spans of time and points in time, in whole nanoseconds.

use vstd::prelude::*;

verus! {

/// The longest span: the largest number of whole seconds in 64 bits and the nanoseconds
/// of one more second but one.
pub const MAX_NANOS: u128 = 18_446_744_073_709_551_615_999_999_999;

/// A span of time.
#[derive(Clone, Copy, Debug, PartialEq, Eq, Structural)]
pub struct Duration {
    pub nanos: u128,
}

/// A point in time, counted from a fixed origin.
#[derive(Clone, Copy, Debug, PartialEq, Eq, Structural)]
pub struct Instant {
    pub nanos: u128,
}

/// The whole seconds in `nanos`, as far as they fit in 64 bits.
pub open spec fn whole_secs(nanos: u128) -> u64 {
    if nanos > MAX_NANOS { u64::MAX } else { (nanos / 1_000_000_000) as u64 }
}

/// Addition that stops at the longest span.
pub open spec fn span_sum(a: u128, b: u128) -> u128 {
    if a + b > MAX_NANOS { MAX_NANOS } else { (a + b) as u128 }
}

/// Subtraction that stops at nothing.
pub open spec fn span_rest(a: u128, b: u128) -> u128 {
    if a < b { 0 } else { (a - b) as u128 }
}

/// The distance between two spans.
pub open spec fn span_distance(a: u128, b: u128) -> u128 {
    if a < b { (b - a) as u128 } else { (a - b) as u128 }
}

impl Duration {
    pub open spec fn of_secs(secs: u64) -> Self {
        Duration { nanos: (secs * 1_000_000_000) as u128 }
    }

    pub open spec fn of_millis(millis: u64) -> Self {
        Duration { nanos: (millis * 1_000_000) as u128 }
    }

    pub open spec fn secs(self) -> u64 {
        whole_secs(self.nanos)
    }

    pub open spec fn plus(self, other: Self) -> Self {
        Duration { nanos: span_sum(self.nanos, other.nanos) }
    }

    pub open spec fn minus(self, other: Self) -> Self {
        Duration { nanos: span_rest(self.nanos, other.nanos) }
    }

    pub open spec fn distance(self, other: Self) -> Self {
        Duration { nanos: span_distance(self.nanos, other.nanos) }
    }

    pub open spec fn smaller(self, other: Self) -> Self {
        if other.nanos < self.nanos { other } else { self }
    }

    pub fn zero() -> (d: Self)
        ensures
            d == (Duration { nanos: 0 }),
    {
        Duration { nanos: 0 }
    }

    pub fn from_secs(secs: u64) -> (d: Self)
        ensures
            d == Self::of_secs(secs),
    {
        Duration { nanos: secs as u128 * 1_000_000_000 }
    }

    pub fn from_millis(millis: u64) -> (d: Self)
        ensures
            d == Self::of_millis(millis),
    {
        Duration { nanos: millis as u128 * 1_000_000 }
    }

    pub fn from_nanos(nanos: u64) -> (d: Self)
        ensures
            d.nanos == nanos,
    {
        Duration { nanos: nanos as u128 }
    }

    pub fn is_zero(&self) -> (zero: bool)
        ensures
            zero == (self.nanos == 0),
    {
        self.nanos == 0
    }

    pub fn as_secs(&self) -> (secs: u64)
        ensures
            secs == self.secs(),
    {
        if self.nanos > MAX_NANOS { u64::MAX } else { (self.nanos / 1_000_000_000) as u64 }
    }

    pub fn as_millis(&self) -> (millis: u128)
        ensures
            millis == self.nanos / 1_000_000,
    {
        self.nanos / 1_000_000
    }

    pub fn saturating_add(self, other: Self) -> (sum: Self)
        ensures
            sum == self.plus(other),
    {
        match self.nanos.checked_add(other.nanos) {
            Some(nanos) if nanos <= MAX_NANOS => Duration { nanos },
            _ => Duration { nanos: MAX_NANOS },
        }
    }

    pub fn saturating_sub(self, other: Self) -> (rest: Self)
        ensures
            rest == self.minus(other),
    {
        if self.nanos < other.nanos { Duration { nanos: 0 } } else { Duration { nanos: self.nanos - other.nanos } }
    }

    pub fn abs_diff(self, other: Self) -> (distance: Self)
        ensures
            distance == self.distance(other),
    {
        if self.nanos < other.nanos {
            Duration { nanos: other.nanos - self.nanos }
        } else {
            Duration { nanos: self.nanos - other.nanos }
        }
    }

    pub fn min(self, other: Self) -> (smaller: Self)
        ensures
            smaller == self.smaller(other),
    {
        if other.nanos < self.nanos { other } else { self }
    }
}

impl Instant {
    pub open spec fn plus(self, span: Duration) -> Self {
        Instant {
            nanos: if self.nanos + span.nanos > u128::MAX { u128::MAX } else { (self.nanos + span.nanos) as u128 },
        }
    }

    pub open spec fn since(self, earlier: Self) -> Duration {
        Duration { nanos: span_rest(self.nanos, earlier.nanos) }
    }

    /// The point `span` later.
    pub fn after(self, span: Duration) -> (later: Self)
        ensures
            later == self.plus(span),
    {
        match self.nanos.checked_add(span.nanos) {
            Some(nanos) => Instant { nanos },
            None => Instant { nanos: u128::MAX },
        }
    }

    /// The span since an earlier point, nothing if that point is later.
    pub fn saturating_duration_since(self, earlier: Self) -> (span: Duration)
        ensures
            span == self.since(earlier),
    {
        if self.nanos < earlier.nanos { Duration { nanos: 0 } } else { Duration { nanos: self.nanos - earlier.nanos } }
    }
}

/// Whole seconds survive the way through a span.
pub proof fn seconds_round_trip(secs: u64)
    ensures
        Duration::of_secs(secs).secs() == secs,
{
}

/// Spans add up, stop at nothing when one is taken off another, and are as far apart as the
/// longer is longer, up to the longest span: as many seconds as 64 bits count, and a second
/// less a nanosecond.
pub proof fn spans_are_counted_in_nanoseconds(a: Duration, b: Duration)
    ensures
        a.nanos + b.nanos < 18_446_744_073_709_551_616_000_000_000 ==> a.plus(b).nanos == a.nanos
            + b.nanos,
        a.nanos + b.nanos >= 18_446_744_073_709_551_616_000_000_000 ==> a.plus(b).nanos
            == 18_446_744_073_709_551_615_999_999_999,
        b.nanos <= a.nanos ==> a.minus(b).nanos + b.nanos == a.nanos,
        a.nanos <= b.nanos ==> a.minus(b).nanos == 0,
        a.nanos <= b.nanos ==> a.nanos + a.distance(b).nanos == b.nanos,
        b.nanos <= a.nanos ==> b.nanos + a.distance(b).nanos == a.nanos,
        a.smaller(b).nanos <= a.nanos && a.smaller(b).nanos <= b.nanos,
        a.smaller(b) == a || a.smaller(b) == b,
{
}

/// A second has a thousand milliseconds and a milliard nanoseconds, and only whole seconds
/// are counted.
pub proof fn seconds_are_a_milliard_nanoseconds(span: Duration, secs: u64, millis: u64)
    ensures
        Duration::of_secs(secs).nanos == secs * 1_000_000_000,
        Duration::of_millis(millis).nanos == millis * 1_000_000,
        span.nanos < 18_446_744_073_709_551_616_000_000_000 ==> span.secs() * 1_000_000_000
            <= span.nanos < (span.secs() + 1) * 1_000_000_000,
{
}

/// A moment lies as much later as the span says, and the time between two moments is what
/// lies between them, nothing if the second is not later.
pub proof fn moments_are_apart(at: Instant, later: Instant, span: Duration)
    ensures
        at.nanos + span.nanos <= u128::MAX ==> at.plus(span).nanos == at.nanos + span.nanos,
        at.nanos <= later.nanos ==> at.nanos + later.since(at).nanos == later.nanos,
        later.nanos <= at.nanos ==> later.since(at).nanos == 0,
{
}

} // verus!
