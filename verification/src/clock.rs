//! Spans of time, to the nanosecond.

use vstd::prelude::*;

verus! {

/// Nanoseconds in a second.
pub const NANOS_PER_SEC: u128 = 1_000_000_000;

/// Nanoseconds in a millisecond.
pub const NANOS_PER_MILLI: u128 = 1_000_000;

/// A span of time of up to `u64::MAX` whole seconds and a fraction. Its view is its length in
/// nanoseconds.
#[derive(Debug, Clone, Copy, PartialEq, Eq, Structural)]
pub struct Duration {
    nanos: u128,
}

impl View for Duration {
    type V = nat;

    closed spec fn view(&self) -> nat {
        self.nanos as nat
    }
}

impl Duration {
    /// The whole seconds fit a `u64`.
    #[verifier::type_invariant]
    pub closed spec fn fits(self) -> bool {
        self.nanos < 0x1_0000_0000_0000_0000 * NANOS_PER_SEC
    }

    /// What every span is shorter than, in nanoseconds.
    pub open spec fn limit() -> nat {
        0x1_0000_0000_0000_0000 * 1_000_000_000
    }

    pub fn from_secs(secs: u64) -> (r: Self)
        ensures
            r@ == secs * 1_000_000_000,
    {
        Duration { nanos: secs as u128 * NANOS_PER_SEC }
    }

    pub fn from_millis(millis: u64) -> (r: Self)
        ensures
            r@ == millis * 1_000_000,
    {
        Duration { nanos: millis as u128 * NANOS_PER_MILLI }
    }

    /// A span of `secs` seconds and `subsec_nanos` nanoseconds.
    pub fn new(secs: u64, subsec_nanos: u32) -> (r: Self)
        requires
            subsec_nanos < 1_000_000_000,
        ensures
            r@ == secs * 1_000_000_000 + subsec_nanos,
    {
        Duration { nanos: secs as u128 * NANOS_PER_SEC + subsec_nanos as u128 }
    }

    /// The length in nanoseconds.
    pub fn as_nanos(&self) -> (r: u128)
        ensures
            r == self@,
            self@ < Self::limit(),
    {
        proof {
            use_type_invariant(self);
        }
        self.nanos
    }

    /// The whole milliseconds.
    pub fn as_millis(&self) -> (r: u128)
        ensures
            r == self@ / 1_000_000,
    {
        self.nanos / NANOS_PER_MILLI
    }

    /// The whole seconds.
    pub fn as_secs(&self) -> (r: u64)
        ensures
            r == self@ / 1_000_000_000,
    {
        proof {
            use_type_invariant(self);
        }
        (self.nanos / NANOS_PER_SEC) as u64
    }

    /// What is left after `other`, or nothing.
    pub fn saturating_sub(&self, other: Duration) -> (r: Self)
        ensures
            r@ == if other@ <= self@ {
                (self@ - other@) as nat
            } else {
                0
            },
    {
        proof {
            use_type_invariant(self);
        }
        if other.nanos <= self.nanos {
            Duration { nanos: self.nanos - other.nanos }
        } else {
            Duration { nanos: 0 }
        }
    }

    /// Half of it, rounded down.
    pub fn half(&self) -> (r: Self)
        ensures
            r@ == self@ / 2,
    {
        proof {
            use_type_invariant(self);
        }
        Duration { nanos: self.nanos / 2 }
    }

    /// Whether it is at least as long as `other`.
    pub fn at_least(&self, other: Duration) -> (r: bool)
        ensures
            r == (self@ >= other@),
    {
        self.nanos >= other.nanos
    }
}

/// A span made of seconds has that many seconds, and a thousand times as many milliseconds.
pub proof fn seconds_come_back_as_they_were(secs: u64, d: Duration, s: u64, ms: u128, ns: u128)
    requires
        call_ensures(Duration::from_secs, (secs,), d),
        call_ensures(Duration::as_secs, (&d,), s),
        call_ensures(Duration::as_millis, (&d,), ms),
        call_ensures(Duration::as_nanos, (&d,), ns),
    ensures
        s == secs,
        ms == secs * 1_000,
        ns == secs * 1_000_000_000,
{
}

/// A span made of milliseconds has that many milliseconds, and one second for each thousand.
pub proof fn milliseconds_come_back_as_they_were(millis: u64, d: Duration, s: u64, ms: u128)
    requires
        call_ensures(Duration::from_millis, (millis,), d),
        call_ensures(Duration::as_secs, (&d,), s),
        call_ensures(Duration::as_millis, (&d,), ms),
    ensures
        ms == millis,
        s == millis / 1_000,
{
}

/// What is left of a span after another, and the other, make up the span; after a longer one
/// nothing is left. The two halves of a span differ by at most a nanosecond.
pub proof fn spans_are_taken_apart_exactly(a: Duration, b: Duration, left: Duration, half: Duration)
    requires
        call_ensures(Duration::saturating_sub, (&a, b), left),
        call_ensures(Duration::half, (&a,), half),
    ensures
        b@ <= a@ ==> left@ + b@ == a@,
        b@ > a@ ==> left@ == 0,
        half@ + half@ <= a@ <= half@ + half@ + 1,
{
}

} // verus!
