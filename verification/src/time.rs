//! Spans of time.

use vstd::prelude::*;

verus! {

/// Nanoseconds in a second.
pub const NANOS_PER_SEC: u128 = 1_000_000_000;

/// Nanoseconds in a millisecond.
pub const NANOS_PER_MILLI: u128 = 1_000_000;

/// The longest span, in nanoseconds: as many whole seconds as fit into 64
/// bits, and one nanosecond less than another second.
pub const MAX_NANOS: u128 = 18_446_744_073_709_551_615_999_999_999;

/// A span of time to the nanosecond, viewed as the number of nanoseconds.
#[derive(Debug, Clone, Copy, PartialEq, Eq, PartialOrd, Ord)]
pub struct Duration {
    nanos: u128,
}

impl View for Duration {
    type V = nat;

    closed spec fn view(&self) -> nat {
        self.nanos as nat
    }
}

/// The shorter of two spans.
pub open spec fn shorter(a: nat, b: nat) -> nat {
    if b < a {
        b
    } else {
        a
    }
}

/// The sum of two spans, at most the longest span.
pub open spec fn sum_up_to_longest(a: nat, b: nat) -> nat {
    shorter(a + b, MAX_NANOS as nat)
}

/// The difference of two spans, nothing when the second is the longer one.
pub open spec fn difference_down_to_zero(a: nat, b: nat) -> nat {
    if b < a {
        (a - b) as nat
    } else {
        0
    }
}

impl Duration {
    #[verifier::type_invariant]
    spec fn fits(self) -> bool {
        self.nanos <= MAX_NANOS
    }

    /// No time at all.
    pub fn zero() -> (d: Duration)
        ensures
            d@ == 0,
    {
        Duration { nanos: 0 }
    }

    /// A span of whole seconds.
    pub fn from_secs(secs: u64) -> (d: Duration)
        ensures
            d@ == secs * NANOS_PER_SEC,
    {
        Duration { nanos: secs as u128 * NANOS_PER_SEC }
    }

    /// A span of whole milliseconds.
    pub fn from_millis(millis: u64) -> (d: Duration)
        ensures
            d@ == millis * NANOS_PER_MILLI,
    {
        Duration { nanos: millis as u128 * NANOS_PER_MILLI }
    }

    /// A span of nanoseconds, or the longest span when they are more.
    pub fn from_nanos(nanos: u128) -> (d: Duration)
        ensures
            d@ == shorter(nanos as nat, MAX_NANOS as nat),
    {
        if nanos > MAX_NANOS {
            Duration { nanos: MAX_NANOS }
        } else {
            Duration { nanos }
        }
    }

    /// The number of nanoseconds.
    pub fn as_nanos(self) -> (nanos: u128)
        ensures
            nanos == self@,
    {
        self.nanos
    }

    /// The number of whole seconds.
    pub fn as_secs(self) -> (secs: u64)
        ensures
            secs == self@ / NANOS_PER_SEC as nat,
    {
        proof {
            use_type_invariant(self);
        }
        (self.nanos / NANOS_PER_SEC) as u64
    }

    /// The shorter of two spans.
    pub fn min(self, other: Duration) -> (d: Duration)
        ensures
            d@ == shorter(self@, other@),
    {
        if other.nanos < self.nanos {
            other
        } else {
            self
        }
    }

    /// The sum, or the longest span when it would be longer.
    pub fn saturating_add(self, other: Duration) -> (d: Duration)
        ensures
            d@ == sum_up_to_longest(self@, other@),
    {
        proof {
            use_type_invariant(self);
            use_type_invariant(other);
        }
        Duration::from_nanos(self.nanos + other.nanos)
    }

    /// The difference, or no time when `other` is the longer span.
    pub fn saturating_sub(self, other: Duration) -> (d: Duration)
        ensures
            d@ == difference_down_to_zero(self@, other@),
    {
        proof {
            use_type_invariant(self);
        }
        if other.nanos < self.nanos {
            Duration { nanos: self.nanos - other.nanos }
        } else {
            Duration { nanos: 0 }
        }
    }

    /// Whether two spans are equally long.
    pub fn is(self, other: Duration) -> (same: bool)
        ensures
            same == (self@ == other@),
    {
        self.nanos == other.nanos
    }
}

/// The shorter of two spans is one of them and no longer than either. Taking a
/// span away and adding it again gives the span back, and so does adding and
/// taking away, where nothing is cut off: at zero, or at the longest span.
pub proof fn spans_add_up(a: nat, b: nat)
    ensures
        shorter(a, b) <= a,
        shorter(a, b) <= b,
        shorter(a, b) == a || shorter(a, b) == b,
        b <= a ==> difference_down_to_zero(a, b) + b == a,
        a <= b ==> difference_down_to_zero(a, b) == 0,
        a + b <= 18_446_744_073_709_551_615_999_999_999 ==> sum_up_to_longest(a, b) == a + b
            && difference_down_to_zero(sum_up_to_longest(a, b), b) == a,
        a + b >= 18_446_744_073_709_551_615_999_999_999 ==> sum_up_to_longest(a, b)
            == 18_446_744_073_709_551_615_999_999_999,
        1000 * NANOS_PER_MILLI == NANOS_PER_SEC,
        NANOS_PER_SEC == 1_000_000_000,
{
}

} // verus!
