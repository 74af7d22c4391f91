//! Spans of time, with nanosecond precision.

use vstd::prelude::*;

verus! {

/// The longest span: `u64::MAX` seconds and 999 999 999 nanoseconds.
pub const MAX_NANOS: u128 = 18_446_744_073_709_551_615_999_999_999;

/// A span of time, counted in nanoseconds, at most `MAX_NANOS` of them.
#[derive(Debug, Clone, Copy, PartialEq, Eq, Structural)]
pub struct Duration {
    nanos: u128,
}

impl View for Duration {
    type V = nat;

    /// The span in nanoseconds.
    closed spec fn view(&self) -> nat {
        self.nanos as nat
    }
}

impl Duration {
    #[verifier::type_invariant]
    spec fn within_range(&self) -> bool {
        self.nanos <= MAX_NANOS
    }

    /// The empty span.
    pub fn zero() -> (d: Duration)
        ensures
            d@ == 0,
    {
        Duration { nanos: 0 }
    }

    /// `secs` seconds.
    pub fn from_secs(secs: u64) -> (d: Duration)
        ensures
            d@ == secs * 1_000_000_000,
    {
        Duration { nanos: secs as u128 * 1_000_000_000 }
    }

    /// `millis` milliseconds.
    pub fn from_millis(millis: u64) -> (d: Duration)
        ensures
            d@ == millis * 1_000_000,
    {
        Duration { nanos: millis as u128 * 1_000_000 }
    }

    /// `nanos` nanoseconds.
    pub fn from_nanos(nanos: u64) -> (d: Duration)
        ensures
            d@ == nanos,
    {
        Duration { nanos: nanos as u128 }
    }

    /// The span made of `secs` whole seconds and `nanos` more nanoseconds;
    /// whole seconds among `nanos` carry into the seconds, which must then
    /// still fit in a `u64`.
    pub fn new(secs: u64, nanos: u32) -> (d: Duration)
        requires
            secs + nanos / 1_000_000_000 <= u64::MAX,
        ensures
            d@ == secs * 1_000_000_000 + nanos,
    {
        let total: u128 = secs as u128 * 1_000_000_000 + nanos as u128;
        assert(total <= MAX_NANOS) by (nonlinear_arith)
            requires
                total == secs * 1_000_000_000 + nanos,
                secs + nanos / 1_000_000_000 <= u64::MAX,
                nanos < 0x1_0000_0000,
        ;
        Duration { nanos: total }
    }

    /// Whether the span is empty.
    pub fn is_zero(&self) -> (zero: bool)
        ensures
            zero == (self@ == 0),
    {
        self.nanos == 0
    }

    /// The span in whole nanoseconds.
    pub fn as_nanos(&self) -> (nanos: u128)
        ensures
            nanos == self@,
            nanos <= MAX_NANOS,
    {
        proof {
            use_type_invariant(self);
        }
        self.nanos
    }

    /// The span in whole milliseconds (rounded down).
    pub fn as_millis(&self) -> (millis: u128)
        ensures
            millis == self@ / 1_000_000,
            millis <= MAX_NANOS / 1_000_000,
    {
        proof {
            use_type_invariant(self);
            vstd::arithmetic::div_mod::lemma_div_is_ordered(self.nanos as int, MAX_NANOS as int, 1_000_000);
        }
        self.nanos / 1_000_000
    }

    /// The span in whole seconds (rounded down).
    pub fn as_secs(&self) -> (secs: u64)
        ensures
            secs == self@ / 1_000_000_000,
    {
        proof {
            use_type_invariant(self);
        }
        (self.nanos / 1_000_000_000) as u64
    }

    /// The nanoseconds past the whole seconds.
    pub fn subsec_nanos(&self) -> (nanos: u32)
        ensures
            nanos == self@ % 1_000_000_000,
    {
        (self.nanos % 1_000_000_000) as u32
    }

    /// The sum of the spans, or `None` where it is longer than `MAX_NANOS`.
    pub fn checked_add(&self, other: Duration) -> (sum: Option<Duration>)
        ensures
            sum matches Some(d) ==> d@ == self@ + other@,
            sum is None <==> self@ + other@ > MAX_NANOS,
    {
        proof {
            use_type_invariant(self);
            use_type_invariant(&other);
        }
        if self.nanos > MAX_NANOS - other.nanos {
            None
        } else {
            Some(Duration { nanos: self.nanos + other.nanos })
        }
    }

    /// The longer of the two spans.
    pub fn max(self, other: Duration) -> (longer: Duration)
        ensures
            longer@ == if self@ >= other@ { self@ } else { other@ },
    {
        if self.nanos >= other.nanos {
            self
        } else {
            other
        }
    }
}

} // verus!
