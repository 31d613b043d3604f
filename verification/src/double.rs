//! IEEE 754 double-precision numbers as bit patterns, read by integer arithmetic.
//!
//! A JavaScript number crosses the library as its 64 bits. The functions here
//! decide what the runtime asks of such a number: whether it is finite, whether
//! it is an integer, and which machine integer it truncates or rounds to.

use vstd::arithmetic::power2::pow2;
use vstd::prelude::*;

verus! {

/// A double-precision number, held as its bit pattern.
#[derive(Clone, Copy, Debug)]
pub struct Double {
    pub bits: u64,
}

pub const FRACTION_SPAN: u64 = 0x10_0000_0000_0000;

pub const SIGN_BIT: u64 = 0x8000_0000_0000_0000;

/// The unsigned magnitude 2^63, the first one past the positive `i64` range.
pub const I64_SPAN: u64 = 0x8000_0000_0000_0000;

/// `value` brought into the range from `low` to `high`.
pub open spec fn clamp(value: int, low: int, high: int) -> int {
    if value < low {
        low
    } else if value > high {
        high
    } else {
        value
    }
}

impl Double {
    /// The sign bit is set.
    pub open spec fn sign(self) -> bool {
        self.bits >= SIGN_BIT
    }

    /// The eleven exponent bits.
    pub open spec fn exponent(self) -> int {
        (self.bits as int / FRACTION_SPAN as int) % 2048
    }

    /// The fifty-two fraction bits.
    pub open spec fn fraction(self) -> int {
        self.bits as int % FRACTION_SPAN as int
    }

    /// Neither NaN nor an infinity.
    pub open spec fn finite(self) -> bool {
        self.exponent() != 2047
    }

    /// The integer significand; the number is `± significand * 2^scale`.
    pub open spec fn significand(self) -> int {
        if self.exponent() == 0 {
            self.fraction()
        } else {
            FRACTION_SPAN + self.fraction()
        }
    }

    /// The power of two that the significand is scaled by.
    pub open spec fn scale(self) -> int {
        if self.exponent() == 0 {
            -1074
        } else {
            self.exponent() - 1075
        }
    }

    /// The largest integer that does not exceed the magnitude.
    pub open spec fn whole(self) -> int {
        if self.scale() >= 0 {
            self.significand() * pow2(self.scale() as nat)
        } else {
            self.significand() / pow2((-self.scale()) as nat) as int
        }
    }

    /// The magnitude has no fractional part.
    pub open spec fn integral(self) -> bool {
        self.scale() >= 0 || self.significand() % pow2((-self.scale()) as nat) as int == 0
    }

    /// The integer nearest to the magnitude, halves rounded up.
    pub open spec fn nearest(self) -> int {
        if self.scale() >= 0 {
            self.whole()
        } else {
            (2 * self.significand() + pow2((-self.scale()) as nat)) / (2 * pow2(
                (-self.scale()) as nat,
            )) as int
        }
    }

    /// The number is below zero.
    pub open spec fn below_zero(self) -> bool {
        self.sign() && self.significand() > 0
    }

    /// The number with its fractional part dropped.
    pub open spec fn trunc(self) -> int {
        if self.sign() {
            -self.whole()
        } else {
            self.whole()
        }
    }

    /// The number rounded to the nearest integer, halves away from zero.
    pub open spec fn rounded(self) -> int {
        if self.sign() {
            -self.nearest()
        } else {
            self.nearest()
        }
    }

    /// The number lies between -2^63 and 2^63, both included.
    pub open spec fn within_i64_span(self) -> bool {
        self.finite() && self.whole() <= I64_SPAN
    }

    /// The number is exactly an `i64`; a negative zero is not, for no integer is one.
    pub open spec fn exact_i64(self) -> bool {
        &&& self.finite()
        &&& self.integral()
        &&& i64::MIN <= self.trunc() <= i64::MAX
        &&& !(self.sign() && self.trunc() == 0)
    }

    /// Whether the number is neither NaN nor an infinity.
    pub fn is_finite(self) -> (yes: bool)
        ensures
            yes == self.finite(),
    {
        (self.bits / FRACTION_SPAN) % 2048 != 2047
    }

    /// Whether the number is below zero.
    pub fn is_below_zero(self) -> (yes: bool)
        ensures
            yes == self.below_zero(),
    {
        self.bits >= SIGN_BIT && self.parts().0 > 0
    }

    /// The significand, and the scale as its sign and magnitude.
    pub(crate) fn parts(self) -> (r: (u64, bool, u32))
        ensures
            r.0 == self.significand(),
            r.0 < 2 * FRACTION_SPAN,
            self.exponent() != 0 ==> r.0 >= FRACTION_SPAN,
            r.1 == (self.scale() < 0),
            r.2 == if self.scale() < 0 { -self.scale() } else { self.scale() },
            r.2 <= 1074,
    {
        let fraction: u64 = self.bits % FRACTION_SPAN;
        let exponent: u64 = (self.bits / FRACTION_SPAN) % 2048;
        if exponent == 0 {
            (fraction, true, 1074)
        } else if exponent < 1075 {
            (FRACTION_SPAN + fraction, true, (1075 - exponent) as u32)
        } else {
            (FRACTION_SPAN + fraction, false, (exponent - 1075) as u32)
        }
    }

    /// The whole part of the magnitude, or `None` when it needs more than 64 bits.
    pub fn whole_magnitude(self) -> (r: Option<u64>)
        ensures
            match r {
                Some(m) => m == self.whole(),
                None => self.whole() > u64::MAX,
            },
    {
        let (significand, negative, amount): (u64, bool, u32) = self.parts();
        if negative {
            if amount >= 53 {
                proof {
                    lemma_pow2_at_least(53, amount as nat);
                    lemma_pow2_values();
                    vstd::arithmetic::div_mod::lemma_basic_div(
                        significand as int,
                        pow2(amount as nat) as int,
                    );
                }
                Some(0)
            } else {
                let unit: u64 = power_of_two(amount);
                Some(significand / unit)
            }
        } else if amount >= 12 {
            proof {
                lemma_pow2_at_least(12, amount as nat);
                lemma_pow2_values();
                let p: int = pow2(amount as nat) as int;
                assert(significand as int * p >= FRACTION_SPAN * 4096) by (nonlinear_arith)
                    requires
                        significand as int >= FRACTION_SPAN,
                        p >= 4096,
                ;
            }
            None
        } else {
            let unit: u64 = power_of_two(amount);
            proof {
                lemma_pow2_at_least(amount as nat, 11);
                lemma_pow2_values();
                assert((significand as int) * (unit as int) <= (2 * FRACTION_SPAN - 1) * 2048)
                    by (nonlinear_arith)
                    requires
                        significand < 2 * FRACTION_SPAN,
                        unit <= 2048,
                ;
            }
            Some(significand * unit)
        }
    }

    /// Whether the magnitude has no fractional part.
    pub fn is_integral(self) -> (yes: bool)
        ensures
            yes == self.integral(),
    {
        let (significand, negative, amount): (u64, bool, u32) = self.parts();
        if !negative {
            true
        } else if amount >= 53 {
            proof {
                lemma_pow2_at_least(53, amount as nat);
                lemma_pow2_values();
                vstd::arithmetic::div_mod::lemma_small_mod(
                    significand as nat,
                    pow2(amount as nat),
                );
            }
            significand == 0
        } else {
            significand % power_of_two(amount) == 0
        }
    }

    /// The integer nearest to the magnitude, or `None` when it needs more than 64 bits.
    pub fn nearest_magnitude(self) -> (r: Option<u64>)
        ensures
            match r {
                Some(m) => m == self.nearest(),
                None => self.nearest() > u64::MAX,
            },
    {
        let (significand, negative, amount): (u64, bool, u32) = self.parts();
        if !negative {
            self.whole_magnitude()
        } else if amount >= 54 {
            proof {
                lemma_pow2_at_least(54, amount as nat);
                lemma_pow2_values();
                let p: int = pow2(amount as nat) as int;
                vstd::arithmetic::div_mod::lemma_basic_div(2 * significand + p, 2 * p);
            }
            Some(0)
        } else {
            let unit: u64 = power_of_two(amount);
            proof {
                lemma_pow2_at_least(amount as nat, 53);
                lemma_pow2_values();
            }
            Some((2 * significand + unit) / (2 * unit))
        }
    }

    /// Whether the number lies between -2^63 and 2^63, both included.
    pub fn is_within_i64_span(self) -> (yes: bool)
        ensures
            yes == self.within_i64_span(),
    {
        if !self.is_finite() {
            return false;
        }
        match self.whole_magnitude() {
            Some(m) => m <= I64_SPAN,
            None => false,
        }
    }

    /// The `i64` that the number exactly is.
    pub fn as_i64(self) -> (r: Option<i64>)
        ensures
            match r {
                Some(i) => self.exact_i64() && i == self.trunc(),
                None => !self.exact_i64(),
            },
    {
        if !self.is_finite() || !self.is_integral() {
            return None;
        }
        proof {
            self.lemma_whole_not_negative();
        }
        match self.whole_magnitude() {
            Some(m) => if self.bits >= SIGN_BIT {
                if m == 0 || m > I64_SPAN {
                    None
                } else if m == I64_SPAN {
                    Some(i64::MIN)
                } else {
                    Some(-(m as i64))
                }
            } else if m < I64_SPAN {
                Some(m as i64)
            } else {
                None
            },
            None => None,
        }
    }

    /// The number truncated into the `i64` range.
    pub fn to_i64(self) -> (r: i64)
        requires
            self.finite(),
        ensures
            r == clamp(self.trunc(), i64::MIN as int, i64::MAX as int),
    {
        signed_saturating(self.bits >= SIGN_BIT, self.whole_magnitude(), Ghost(self.whole()))
    }

    /// The number rounded, halves away from zero, into the `i64` range.
    pub fn round_to_i64(self) -> (r: i64)
        requires
            self.finite(),
        ensures
            r == clamp(self.rounded(), i64::MIN as int, i64::MAX as int),
    {
        signed_saturating(self.bits >= SIGN_BIT, self.nearest_magnitude(), Ghost(self.nearest()))
    }

    /// The number truncated into the `u32` range.
    pub fn to_u32(self) -> (r: u32)
        requires
            self.finite(),
        ensures
            r == clamp(self.trunc(), 0, u32::MAX as int),
    {
        proof {
            self.lemma_whole_not_negative();
        }
        if self.bits >= SIGN_BIT {
            return 0;
        }
        match self.whole_magnitude() {
            Some(m) => if m <= 0xffff_ffff {
                m as u32
            } else {
                0xffff_ffff
            },
            None => 0xffff_ffff,
        }
    }

    /// The magnitude is never negative.
    pub proof fn lemma_whole_not_negative(self)
        ensures
            self.whole() >= 0,
    {
        if self.scale() >= 0 {
            let p: int = pow2(self.scale() as nat) as int;
            let s: int = self.significand();
            assert(s * p >= 0) by (nonlinear_arith)
                requires
                    s >= 0,
                    p >= 0,
            ;
        } else {
            vstd::arithmetic::power2::lemma_pow2_pos((-self.scale()) as nat);
            vstd::arithmetic::div_mod::lemma_div_pos_is_pos(
                self.significand(),
                pow2((-self.scale()) as nat) as int,
            );
        }
    }
}

/// The double nearest to `value`, ties to the even significand.
pub open spec fn nearest_double_above_i64(value: int) -> int {
    let q = value / 2048;
    let r = value % 2048;
    if r > 1024 || (r == 1024 && q % 2 == 1) {
        (q + 1) * 2048
    } else {
        q * 2048
    }
}

/// The double nearest to an integer past the `i64` range.
pub fn double_from_large(value: u64) -> (d: Double)
    requires
        value > i64::MAX,
    ensures
        d.finite(),
        !d.sign(),
        d.integral(),
        d.whole() == nearest_double_above_i64(value as int),
        d.bits == 1085 * FRACTION_SPAN + nearest_double_above_i64(value as int) / 2048,
{
    let q: u64 = value / 2048;
    let r: u64 = value % 2048;
    let m: u64 = if r > 1024 || (r == 1024 && q % 2 == 1) {
        q + 1
    } else {
        q
    };
    let d = Double { bits: 1086 * FRACTION_SPAN + (m - FRACTION_SPAN) };
    proof {
        lemma_pow2_values();
        if m < 2 * FRACTION_SPAN {
            assert(d.exponent() == 1086);
            assert(d.fraction() == m - FRACTION_SPAN);
            assert(d.whole() == m * pow2(11));
        } else {
            assert(m == 2 * FRACTION_SPAN);
            assert(d.exponent() == 1087);
            assert(d.fraction() == 0);
            assert(d.whole() == FRACTION_SPAN * pow2(12));
        }
    }
    d
}

fn signed_saturating(negative: bool, magnitude: Option<u64>, Ghost(m): Ghost<int>) -> (r: i64)
    requires
        match magnitude {
            Some(v) => v == m,
            None => m > u64::MAX,
        },
    ensures
        r == clamp(if negative { -m } else { m }, i64::MIN as int, i64::MAX as int),
{
    match magnitude {
        Some(v) => if negative {
            if v >= I64_SPAN {
                i64::MIN
            } else {
                -(v as i64)
            }
        } else if v >= I64_SPAN {
            i64::MAX
        } else {
            v as i64
        },
        None => if negative {
            i64::MIN
        } else {
            i64::MAX
        },
    }
}

pub(crate) fn power_of_two(n: u32) -> (r: u64)
    requires
        n <= 53,
    ensures
        r == pow2(n as nat),
        r > 0,
{
    proof {
        lemma_pow2_values();
    }
    let mut r: u64 = 1;
    let mut i: u32 = 0;
    while i < n
        invariant
            i <= n <= 53,
            r == pow2(i as nat),
            r > 0,
        decreases n - i,
    {
        proof {
            lemma_pow2_at_least(i as nat, 53);
            lemma_pow2_values();
            vstd::arithmetic::power2::lemma_pow2_unfold((i + 1) as nat);
        }
        r = 2 * r;
        i = i + 1;
    }
    r
}

pub(crate) proof fn lemma_pow2_at_least(a: nat, b: nat)
    requires
        a <= b,
    ensures
        0 < pow2(a) <= pow2(b),
    decreases b - a,
{
    vstd::arithmetic::power2::lemma_pow2_pos(a);
    if a < b {
        lemma_pow2_at_least(a, (b - 1) as nat);
        vstd::arithmetic::power2::lemma_pow2_unfold(b);
    }
}

pub(crate) proof fn lemma_pow2_values()
    ensures
        pow2(0) == 1,
        pow2(11) == 2048,
        pow2(12) == 4096,
        pow2(53) == 2 * FRACTION_SPAN,
        pow2(54) == 4 * FRACTION_SPAN,
        pow2(85) == 0x20_0000_0000_0000_0000_0000,
{
    vstd::arithmetic::power2::lemma_pow2_adds(54, 31);
    vstd::arithmetic::power2::lemma2_to64();
    vstd::arithmetic::power2::lemma2_to64_rest();
}

/// The bits of a double whose significand `m` is doubled until it has its leading
/// bit in place, while the exponent bits `field` fall.
pub open spec fn normalized(m: int, field: int) -> int
    decreases 2 * FRACTION_SPAN - m,
{
    if m >= FRACTION_SPAN || m <= 0 {
        field * FRACTION_SPAN + (m - FRACTION_SPAN)
    } else {
        normalized(2 * m, field - 1)
    }
}

/// The bits of the double with the value `n`, for `n` below 2^53.
pub open spec fn integer_bits(n: nat) -> int {
    if n == 0 {
        0
    } else {
        normalized(n as int, 1075)
    }
}

proof fn lemma_normalized(m: int, field: int, n: int)
    requires
        0 < m < 2 * FRACTION_SPAN,
        1 <= n,
        1022 < field <= 1075,
        m == n * pow2((1075 - field) as nat),
        n < 2 * FRACTION_SPAN,
    ensures
        ({
            let bits = normalized(m, field);
            let d = Double { bits: bits as u64 };
            &&& 0 <= bits < SIGN_BIT
            &&& d.finite()
            &&& !d.sign()
            &&& d.integral()
            &&& d.whole() == n
        }),
    decreases 2 * FRACTION_SPAN - m,
{
    let k: nat = (1075 - field) as nat;
    vstd::arithmetic::power2::lemma_pow2_pos(k);
    if m >= FRACTION_SPAN {
        let bits = field * FRACTION_SPAN + (m - FRACTION_SPAN);
        let d = Double { bits: bits as u64 };
        assert(bits < 1076 * FRACTION_SPAN);
        assert(d.exponent() == field);
        assert(d.fraction() == m - FRACTION_SPAN);
        assert(d.significand() == m);
        assert(d.scale() == -(k as int));
        let p: int = pow2(k) as int;
        if k == 0 {
            lemma_pow2_values();
            assert(n * p == n) by (nonlinear_arith)
                requires
                    p == 1,
            ;
        } else {
            vstd::arithmetic::div_mod::lemma_div_multiples_vanish(n, p);
            vstd::arithmetic::div_mod::lemma_mod_multiples_basic(n, p);
            assert(p * n == n * p) by (nonlinear_arith);
        }
    } else {
        vstd::arithmetic::power2::lemma_pow2_unfold(k + 1);
        let p: int = pow2(k) as int;
        assert(2 * (n * p) == n * (2 * p)) by (nonlinear_arith);
        if field == 1023 {
            lemma_pow2_values();
            lemma_pow2_at_least(52, 52);
            vstd::arithmetic::power2::lemma_pow2_unfold(53);
            assert(pow2(52) == FRACTION_SPAN);
            assert(n * p >= p) by (nonlinear_arith)
                requires
                    n >= 1,
                    p >= 0,
            ;
        }
        lemma_normalized(2 * m, field - 1, n);
    }
}

/// The double with the value `n`, which it holds exactly.
pub fn double_from_integer(n: u64) -> (d: Double)
    requires
        n < 2 * FRACTION_SPAN,
    ensures
        d.bits == integer_bits(n as nat),
        d.finite(),
        !d.sign(),
        d.integral(),
        d.whole() == n,
{
    if n == 0 {
        let d = Double { bits: 0 };
        proof {
            vstd::arithmetic::power2::lemma_pow2_pos(1074);
            vstd::arithmetic::div_mod::lemma_div_of0(pow2(1074) as int);
            vstd::arithmetic::div_mod::lemma_small_mod(0, pow2(1074));
        }
        return d;
    }
    proof {
        lemma_pow2_values();
        assert(n as int * pow2(0) as int == n as int) by (nonlinear_arith)
            requires
                pow2(0) == 1,
        ;
        lemma_normalized(n as int, 1075, n as int);
    }
    let mut m: u64 = n;
    let mut field: u64 = 1075;
    while m < FRACTION_SPAN
        invariant
            0 < m < 2 * FRACTION_SPAN,
            field <= 1075,
            normalized(m as int, field as int) == normalized(n as int, 1075),
            field as int > 1075 - 53 - 1,
            m >= pow2((1075 - field) as nat),
        decreases 2 * FRACTION_SPAN - m,
    {
        proof {
            lemma_pow2_values();
            vstd::arithmetic::power2::lemma_pow2_unfold((1075 - field + 1) as nat);
            if field == 1022 {
                assert(pow2(53) == 2 * FRACTION_SPAN);
            }
        }
        m = 2 * m;
        field = field - 1;
    }
    Double { bits: field * FRACTION_SPAN + (m - FRACTION_SPAN) }
}

/// How many low bits of `n` a double cannot hold.
pub open spec fn excess_bits(n: nat) -> nat
    decreases n,
{
    if n < 2 * FRACTION_SPAN {
        0
    } else {
        1 + excess_bits(n / 2)
    }
}

/// The multiple of `unit` that is nearest to `n`, counted in units; the even one of
/// two that are equally near.
pub open spec fn nearest_units(n: nat, unit: nat) -> nat {
    let below = n / unit;
    let rest = n % unit;
    if 2 * rest > unit || (2 * rest == unit && below % 2 == 1) {
        below + 1
    } else {
        below
    }
}

/// The bits of the double that is nearest to `n`.
pub open spec fn nearest_bits(n: nat) -> int {
    let excess = excess_bits(n);
    if excess == 0 {
        integer_bits(n)
    } else {
        (1075 + excess) * FRACTION_SPAN + (nearest_units(n, pow2(excess)) - FRACTION_SPAN)
    }
}

/// The double that is nearest to `n`.
pub fn double_from_u64(n: u64) -> (d: Double)
    ensures
        d.bits == nearest_bits(n as nat),
        d.bits < SIGN_BIT,
        n < 2 * FRACTION_SPAN ==> d.finite() && !d.sign() && d.integral() && d.whole() == n,
{
    if n < 2 * FRACTION_SPAN {
        return double_from_integer(n);
    }
    let mut excess: u64 = 0;
    let mut unit: u64 = 1;
    let mut below: u64 = n;
    proof {
        lemma_pow2_values();
    }
    while below >= 2 * FRACTION_SPAN
        invariant
            n >= 2 * FRACTION_SPAN,
            unit >= 1,
            unit == pow2(excess as nat),
            excess <= unit,
            below == n as nat / unit as nat,
            excess_bits(n as nat) == excess + excess_bits(below as nat),
            excess == 0 ==> below == n,
            excess > 0 ==> below >= FRACTION_SPAN,
        decreases below,
    {
        proof {
            vstd::arithmetic::div_mod::lemma_fundamental_div_mod(n as int, unit as int);
            assert(unit < 2048) by (nonlinear_arith)
                requires
                    n == unit * below + n as int % unit as int,
                    n as int % unit as int >= 0,
                    below >= 0x20_0000_0000_0000,
                    unit >= 1,
            ;
            vstd::arithmetic::div_mod::lemma_div_denominator(n as int, unit as int, 2);
            vstd::arithmetic::power2::lemma_pow2_unfold((excess + 1) as nat);
        }
        below = below / 2;
        unit = unit * 2;
        excess = excess + 1;
    }
    let rest: u64 = n % unit;
    let mut units: u64 = below;
    if rest > unit - rest || (rest == unit - rest && below % 2 == 1) {
        units = units + 1;
    }
    assert(excess < 900) by {
        if excess >= 12 {
            lemma_pow2_at_least(12, excess as nat);
            lemma_pow2_values();
            vstd::arithmetic::div_mod::lemma_fundamental_div_mod(n as int, unit as int);
            vstd::arithmetic::power2::lemma2_to64();
            assert(unit * FRACTION_SPAN <= n) by (nonlinear_arith)
                requires
                    n == unit * below + n as int % unit as int,
                    n as int % unit as int >= 0,
                    below >= FRACTION_SPAN,
                    unit >= 1,
            ;
        }
    }
    Double { bits: (1075 + excess) * FRACTION_SPAN + (units - FRACTION_SPAN) }
}

/// The bits of the double that is nearest to a signed integer.
pub open spec fn signed_bits(i: int) -> int {
    if i < 0 {
        nearest_bits((-i) as nat) + SIGN_BIT
    } else {
        nearest_bits(i as nat)
    }
}

/// The double that is nearest to `i`.
pub fn double_from_i64(i: i64) -> (d: Double)
    ensures
        d.bits == signed_bits(i as int),
{
    if i >= 0 {
        return double_from_u64(i as u64);
    }
    let magnitude: u64 = if i == i64::MIN {
        0x8000_0000_0000_0000
    } else {
        (-i) as u64
    };
    let d: Double = double_from_u64(magnitude);
    Double { bits: d.bits + SIGN_BIT }
}

proof fn lemma_normalized_bits(m: int, field: int, k: nat)
    requires
        0 < m,
        FRACTION_SPAN <= m * pow2(k) < 2 * FRACTION_SPAN,
    ensures
        normalized(m, field) == (field - k) * FRACTION_SPAN + (m * pow2(k) - FRACTION_SPAN),
    decreases k,
{
    lemma_pow2_values();
    if k == 0 {
        assert(m * pow2(0) == m) by (nonlinear_arith)
            requires
                pow2(0) == 1,
        ;
    } else {
        vstd::arithmetic::power2::lemma_pow2_unfold(k);
        let p: int = pow2((k - 1) as nat) as int;
        vstd::arithmetic::power2::lemma_pow2_pos((k - 1) as nat);
        assert(m * (2 * p) == (2 * m) * p) by (nonlinear_arith);
        assert(m * (2 * p) >= 2 * m) by (nonlinear_arith)
            requires
                p >= 1,
                m > 0,
        ;
        lemma_normalized_bits(2 * m, field - 1, (k - 1) as nat);
        assert(m < FRACTION_SPAN);
    }
}

proof fn lemma_excess_bits(m: nat, s: nat)
    requires
        FRACTION_SPAN <= m < 2 * FRACTION_SPAN,
    ensures
        excess_bits((m * pow2(s)) as nat) == s,
    decreases s,
{
    lemma_pow2_values();
    if s == 0 {
        assert(m * pow2(0) == m) by (nonlinear_arith)
            requires
                pow2(0) == 1,
        ;
    } else {
        vstd::arithmetic::power2::lemma_pow2_unfold(s);
        let p: int = pow2((s - 1) as nat) as int;
        vstd::arithmetic::power2::lemma_pow2_pos((s - 1) as nat);
        assert(m * (2 * p) == 2 * (m * p)) by (nonlinear_arith);
        assert(m * p >= m) by (nonlinear_arith)
            requires
                p >= 1,
                m >= 0,
        ;
        lemma_excess_bits(m, (s - 1) as nat);
    }
}

/// A double that is exactly an `i64` is the double nearest to that integer.
pub proof fn lemma_exact_integers_are_nearest(d: Double)
    requires
        d.exact_i64(),
    ensures
        signed_bits(d.trunc()) == d.bits,
{
    lemma_pow2_values();
    let n: int = d.whole();
    let m: int = d.significand();
    d.lemma_whole_not_negative();
    let low: int = d.exponent() * FRACTION_SPAN + d.fraction();
    assert(d.bits as int == low + (if d.sign() {
        SIGN_BIT as int
    } else {
        0
    })) by {
        assert(SIGN_BIT as int == 2048 * FRACTION_SPAN);
    }
    assert(nearest_bits(n as nat) == low) by {
        if d.scale() < 0 {
            let k: nat = (-d.scale()) as nat;
            let p: int = pow2(k) as int;
            vstd::arithmetic::power2::lemma_pow2_pos(k);
            vstd::arithmetic::div_mod::lemma_fundamental_div_mod(m, p);
            assert(m == n * p) by (nonlinear_arith)
                requires
                    m == p * n + 0,
            ;
            if n == 0 {
                assert(m == 0) by (nonlinear_arith)
                    requires
                        m == n * p,
                        n == 0,
                ;
            } else {
                assert(n * p >= p && n * p >= n) by (nonlinear_arith)
                    requires
                        n >= 1,
                        p >= 1,
                ;
                if d.exponent() == 0 {
                    lemma_pow2_at_least(53, 1074);
                }
                lemma_normalized_bits(n, 1075, k);
            }
        } else {
            let s: nat = d.scale() as nat;
            let p: int = pow2(s) as int;
            vstd::arithmetic::power2::lemma_pow2_pos(s);
            lemma_excess_bits(m as nat, s);
            assert(n == m * p);
            if s == 0 {
                assert(n == m) by (nonlinear_arith)
                    requires
                        n == m * p,
                        p == 1,
                ;
                assert(m * pow2(0) == m) by (nonlinear_arith)
                    requires
                        pow2(0) == 1,
                ;
                lemma_normalized_bits(n, 1075, 0);
            } else {
                vstd::arithmetic::div_mod::lemma_div_multiples_vanish(m, p);
                vstd::arithmetic::div_mod::lemma_mod_multiples_basic(m, p);
                assert(p * m == m * p) by (nonlinear_arith);
                assert(nearest_units(n as nat, pow2(s)) == m);
            }
        }
    }
}

/// The double nearest to an integer below 2^53 holds it exactly.
pub proof fn lemma_small_integers_are_exact(i: int)
    requires
        -2 * FRACTION_SPAN < i < 2 * FRACTION_SPAN,
    ensures
        0 <= signed_bits(i) <= u64::MAX,
        ({
            let d = Double { bits: signed_bits(i) as u64 };
            &&& d.finite()
            &&& d.integral()
            &&& d.trunc() == i
            &&& d.rounded() == i
            &&& 0 <= d.whole() < 2 * FRACTION_SPAN
        }),
{
    let n: nat = if i < 0 {
        (-i) as nat
    } else {
        i as nat
    };
    let bits = integer_bits(n);
    assert(nearest_bits(n) == bits);
    lemma_pow2_values();
    if n == 0 {
        vstd::arithmetic::power2::lemma_pow2_pos(1074);
        vstd::arithmetic::div_mod::lemma_div_of0(pow2(1074) as int);
        vstd::arithmetic::div_mod::lemma_small_mod(0, pow2(1074));
    } else {
        assert(n as int * pow2(0) as int == n as int) by (nonlinear_arith)
            requires
                pow2(0) == 1,
        ;
        lemma_normalized(n as int, 1075, n as int);
    }
    let d = Double { bits: bits as u64 };
    assert(d.whole() == n && d.integral() && d.finite() && !d.sign());
    let e = Double { bits: signed_bits(i) as u64 };
    if i < 0 {
        assert(e.bits as int == bits + 2048 * FRACTION_SPAN);
        assert(e.fraction() == d.fraction());
        assert(e.bits as int / FRACTION_SPAN as int == bits / FRACTION_SPAN as int + 2048);
        assert(e.exponent() == d.exponent());
    }
    assert(e.significand() == d.significand() && e.scale() == d.scale());
    assert(e.nearest() == n) by {
        if e.scale() < 0 {
            let p: int = pow2((-e.scale()) as nat) as int;
            let m: int = e.significand();
            vstd::arithmetic::power2::lemma_pow2_pos((-e.scale()) as nat);
            vstd::arithmetic::div_mod::lemma_fundamental_div_mod(m, p);
            assert(m == p * (n as int));
            assert((2 * m + p) / (2 * p) == n as int) by {
                assert(2 * m + p == (2 * p) * (n as int) + p) by (nonlinear_arith)
                    requires
                        m == p * (n as int),
                ;
                vstd::arithmetic::div_mod::lemma_fundamental_div_mod_converse(
                    2 * m + p,
                    2 * p,
                    n as int,
                    p,
                );
            }
        }
    }
}

} // verus!
