//! Spans of time, counted in whole nanoseconds.

use crate::double::{
    lemma_pow2_at_least, lemma_pow2_values, power_of_two, Double, FRACTION_SPAN,
};
use vstd::arithmetic::power2::pow2;
use vstd::prelude::*;

verus! {

/// The longest span: `u64::MAX` seconds and all but one nanosecond of another.
pub const MAX_NANOS: u128 = 18_446_744_073_709_551_615_999_999_999;

/// A span of time.
#[derive(Clone, Copy, Debug, PartialEq, Eq, Structural)]
pub struct Duration {
    nanos: u128,
}

impl View for Duration {
    type V = nat;

    /// The span in nanoseconds.
    closed spec fn view(&self) -> nat {
        self.nanos as nat
    }
}

impl Duration {
    #[verifier::type_invariant]
    closed spec fn well_formed(self) -> bool {
        self.nanos <= MAX_NANOS
    }

    /// No time at all.
    pub fn zero() -> (span: Duration)
        ensures
            span@ == 0,
    {
        Duration { nanos: 0 }
    }

    /// The longest span.
    pub fn max() -> (span: Duration)
        ensures
            span@ == MAX_NANOS,
    {
        Duration { nanos: MAX_NANOS }
    }

    pub fn from_millis(millis: u64) -> (span: Duration)
        ensures
            span@ == millis * 1_000_000,
    {
        Duration { nanos: millis as u128 * 1_000_000 }
    }

    pub fn from_secs(secs: u64) -> (span: Duration)
        ensures
            span@ == secs * 1_000_000_000,
    {
        Duration { nanos: secs as u128 * 1_000_000_000 }
    }

    /// The span of `nanos` nanoseconds, held at the longest one.
    pub fn from_nanos(nanos: u128) -> (span: Duration)
        ensures
            span@ == if nanos <= MAX_NANOS {
                nanos
            } else {
                MAX_NANOS
            },
    {
        if nanos <= MAX_NANOS {
            Duration { nanos }
        } else {
            Duration { nanos: MAX_NANOS }
        }
    }

    /// The whole nanoseconds of the span.
    pub fn as_nanos(self) -> (nanos: u128)
        ensures
            nanos == self@,
            nanos <= MAX_NANOS,
    {
        proof {
            use_type_invariant(&self);
        }
        self.nanos
    }

    /// The whole milliseconds of the span.
    pub fn as_millis(self) -> (millis: u128)
        ensures
            millis == self@ / 1_000_000,
    {
        self.nanos / 1_000_000
    }

    /// The sum of two spans, held at the longest one.
    pub fn saturating_add(self, other: Duration) -> (span: Duration)
        ensures
            span@ == saturating_span(self@ + other@),
    {
        proof {
            use_type_invariant(&self);
            use_type_invariant(&other);
        }
        Duration::from_nanos(self.nanos + other.nanos)
    }

    /// What is left of this span after `other`, at least nothing.
    pub fn saturating_sub(self, other: Duration) -> (span: Duration)
        ensures
            span@ == if self@ >= other@ {
                (self@ - other@) as nat
            } else {
                0
            },
    {
        proof {
            use_type_invariant(&self);
        }
        if self.nanos >= other.nanos {
            Duration { nanos: self.nanos - other.nanos }
        } else {
            Duration { nanos: 0 }
        }
    }

    /// Whether this span is shorter than `other`.
    pub fn is_less(self, other: Duration) -> (yes: bool)
        ensures
            yes == (self@ < other@),
    {
        self.nanos < other.nanos
    }
}

/// A length in nanoseconds, held at that of the longest span.
pub open spec fn saturating_span(nanos: nat) -> nat {
    if nanos <= MAX_NANOS {
        nanos
    } else {
        MAX_NANOS as nat
    }
}

/// The whole nanoseconds nearest to a number of seconds that is at least zero;
/// halves go to the even one.
pub open spec fn seconds_to_nanos(seconds: Double) -> int {
    let scaled = seconds.significand() * 1_000_000_000;
    if seconds.scale() >= 0 {
        scaled * pow2(seconds.scale() as nat)
    } else {
        let unit = pow2((-seconds.scale()) as nat) as int;
        let whole = scaled / unit;
        let rest = scaled % unit;
        if 2 * rest > unit || (2 * rest == unit && whole % 2 == 1) {
            whole + 1
        } else {
            whole
        }
    }
}

/// The span of a number of seconds, or `None` when it is not finite, below zero or
/// longer than the longest span.
pub fn span_from_seconds(seconds: Double) -> (span: Option<Duration>)
    ensures
        match span {
            Some(d) => seconds.finite() && !seconds.below_zero() && d@ == seconds_to_nanos(seconds)
                && d@ <= MAX_NANOS,
            None => !seconds.finite() || seconds.below_zero() || seconds_to_nanos(seconds)
                > MAX_NANOS,
        },
{
    if !seconds.is_finite() || seconds.is_below_zero() {
        return None;
    }
    let (significand, negative, amount): (u64, bool, u32) = seconds.parts();
    let scaled: u128 = significand as u128 * 1_000_000_000;
    if !negative {
        if amount >= 12 {
            proof {
                lemma_pow2_at_least(12, amount as nat);
                lemma_pow2_values();
                let p: int = pow2(amount as nat) as int;
                assert(scaled as int * p >= FRACTION_SPAN * 1_000_000_000 * 4096)
                    by (nonlinear_arith)
                    requires
                        scaled as int >= FRACTION_SPAN * 1_000_000_000,
                        p >= 4096,
                ;
            }
            return None;
        }
        let unit: u64 = power_of_two(amount);
        proof {
            lemma_pow2_at_least(amount as nat, 11);
            lemma_pow2_values();
            assert(scaled as int * unit as int <= (2 * FRACTION_SPAN - 1) * 1_000_000_000 * 2048)
                by (nonlinear_arith)
                requires
                    0 <= scaled <= (2 * FRACTION_SPAN - 1) * 1_000_000_000,
                    0 <= unit <= 2048,
            ;
        }
        let nanos: u128 = scaled * unit as u128;
        return Some(Duration { nanos });
    }
    if amount >= 85 {
        proof {
            lemma_pow2_at_least(85, amount as nat);
            lemma_pow2_values();
            let p: int = pow2(amount as nat) as int;
            vstd::arithmetic::div_mod::lemma_basic_div(scaled as int, p);
            vstd::arithmetic::div_mod::lemma_small_mod(scaled as nat, p as nat);
        }
        return Some(Duration { nanos: 0 });
    }
    let unit: u128 = wide_power_of_two(amount);
    let whole: u128 = scaled / unit;
    let rest: u128 = scaled % unit;
    proof {
        lemma_pow2_at_least(amount as nat, 85);
        lemma_pow2_values();
        assert(whole <= scaled) by {
            vstd::arithmetic::div_mod::lemma_div_is_ordered_by_denominator(
                scaled as int,
                1,
                unit as int,
            );
        }
    }
    let nanos: u128 = if 2 * rest > unit || (2 * rest == unit && whole % 2 == 1) {
        whole + 1
    } else {
        whole
    };
    Some(Duration { nanos })
}

fn wide_power_of_two(n: u32) -> (r: u128)
    requires
        n <= 85,
    ensures
        r == pow2(n as nat),
        r > 0,
{
    proof {
        lemma_pow2_values();
    }
    let mut r: u128 = 1;
    let mut i: u32 = 0;
    while i < n
        invariant
            i <= n <= 85,
            r == pow2(i as nat),
            r > 0,
        decreases n - i,
    {
        proof {
            lemma_pow2_at_least(i as nat, 85);
            lemma_pow2_values();
            vstd::arithmetic::power2::lemma_pow2_unfold((i + 1) as nat);
        }
        r = 2 * r;
        i = i + 1;
    }
    r
}

} // verus!
