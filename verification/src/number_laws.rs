//! How numbers are rounded and measured.

use crate::bigint::{
    byte_count, le_value, magnitude_len, parse_decimal, signed_value, words_value,
};
use crate::double::{nearest_double_above_i64, nearest_units, Double, FRACTION_SPAN};
use crate::js_value::JsView;
use crate::time::{saturating_span, seconds_to_nanos, MAX_NANOS};
use crate::wire::unsigned_value;
use vstd::arithmetic::power2::pow2;
use vstd::prelude::*;

verus! {

/// The number with its fractional part dropped is the largest integer that its magnitude
/// reaches; and a number is integral exactly if it reaches it.
pub proof fn law_fractions_are_dropped(d: Double)
    requires
        d.scale() < 0,
    ensures
        ({
            let unit = pow2((-d.scale()) as nat) as int;
            &&& d.whole() * unit <= d.significand() < (d.whole() + 1) * unit
            &&& d.integral() <==> d.whole() * unit == d.significand()
        }),
{
    let unit = pow2((-d.scale()) as nat) as int;
    vstd::arithmetic::power2::lemma_pow2_pos((-d.scale()) as nat);
    let m = d.significand();
    vstd::arithmetic::div_mod::lemma_fundamental_div_mod(m, unit);
    vstd::arithmetic::div_mod::lemma_mod_bound(m, unit);
    let q = d.whole();
    assert(m == unit * q + m % unit);
    assert(q * unit == unit * q && (q + 1) * unit == unit * q + unit) by (nonlinear_arith);
}

/// A number is rounded to an integer that no other is nearer to: they are at most half
/// apart, and a half goes away from zero.
pub proof fn law_rounding_is_to_the_nearest(d: Double)
    requires
        d.scale() < 0,
    ensures
        ({
            let unit = pow2((-d.scale()) as nat) as int;
            &&& 2 * (d.significand() - d.nearest() * unit) < unit
            &&& 2 * (d.nearest() * unit - d.significand()) <= unit
        }),
        d.sign() ==> d.rounded() == -d.nearest(),
        !d.sign() ==> d.rounded() == d.nearest(),
        d.sign() ==> d.trunc() == -d.whole(),
        !d.sign() ==> d.trunc() == d.whole(),
{
    let unit = pow2((-d.scale()) as nat) as int;
    vstd::arithmetic::power2::lemma_pow2_pos((-d.scale()) as nat);
    let m = d.significand();
    let n = d.nearest();
    vstd::arithmetic::div_mod::lemma_fundamental_div_mod(2 * m + unit, 2 * unit);
    vstd::arithmetic::div_mod::lemma_mod_bound(2 * m + unit, 2 * unit);
    let r = (2 * m + unit) % (2 * unit);
    assert(2 * m + unit == (2 * unit) * n + r);
    assert((2 * unit) * n == 2 * (n * unit)) by (nonlinear_arith);
}

/// A number without a fractional part in its scale is taken as it is.
pub proof fn law_large_numbers_are_whole(d: Double)
    requires
        d.scale() >= 0,
    ensures
        d.integral(),
        d.whole() == d.significand() * pow2(d.scale() as nat),
        d.nearest() == d.whole(),
{
}

/// The number of units nearest to a count is at most half a unit away from it, and the
/// even one where two are equally near.
pub proof fn law_units_are_the_nearest(n: nat, unit: nat)
    requires
        unit > 0,
    ensures
        ({
            let k = nearest_units(n, unit) as int;
            &&& 2 * (n - k * unit) <= unit
            &&& 2 * (k * unit - n) <= unit
            &&& 2 * (n - k * unit) == unit || 2 * (k * unit - n) == unit ==> k % 2 == 0
        }),
{
    let q = (n / unit) as int;
    let r = (n % unit) as int;
    let u = unit as int;
    vstd::arithmetic::div_mod::lemma_fundamental_div_mod(n as int, u);
    vstd::arithmetic::div_mod::lemma_mod_bound(n as int, u);
    assert(n as int == u * q + r);
    assert(q * u == u * q && (q + 1) * u == u * q + u) by (nonlinear_arith);
    let k = nearest_units(n, unit) as int;
    assert(k == q || k == q + 1);
}

/// A length in seconds becomes the whole nanoseconds nearest to it: at most half a
/// nanosecond away, and the even one where two are equally near.
pub proof fn law_seconds_are_told_in_nanoseconds(seconds: Double)
    ensures
        seconds.scale() >= 0 ==> seconds_to_nanos(seconds) == seconds.significand() * 1_000_000_000
            * pow2(seconds.scale() as nat),
        seconds.scale() < 0 ==> {
            let unit = pow2((-seconds.scale()) as nat) as int;
            let exact = seconds.significand() * 1_000_000_000;
            let k = seconds_to_nanos(seconds);
            &&& 2 * (exact - k * unit) <= unit
            &&& 2 * (k * unit - exact) <= unit
            &&& 2 * (exact - k * unit) == unit || 2 * (k * unit - exact) == unit ==> k % 2 == 0
        },
{
    if seconds.scale() < 0 {
        let u = pow2((-seconds.scale()) as nat) as int;
        vstd::arithmetic::power2::lemma_pow2_pos((-seconds.scale()) as nat);
        let exact = seconds.significand() * 1_000_000_000;
        let q = exact / u;
        let r = exact % u;
        vstd::arithmetic::div_mod::lemma_fundamental_div_mod(exact, u);
        vstd::arithmetic::div_mod::lemma_mod_bound(exact, u);
        assert(exact == u * q + r);
        assert(q * u == u * q && (q + 1) * u == u * q + u) by (nonlinear_arith);
        let k = seconds_to_nanos(seconds);
        assert(k == q || k == q + 1);
    }
}

/// An integer past the `i64` range is held as the multiple of the double's last place
/// that is nearest to it, the even one where two are equally near.
pub proof fn law_integers_past_the_range_are_held_nearest(value: int)
    ensures
        nearest_double_above_i64(value) % 2048 == 0,
        nearest_double_above_i64(value) - 1024 <= value <= nearest_double_above_i64(value) + 1024,
        value == nearest_double_above_i64(value) - 1024 || value == nearest_double_above_i64(value)
            + 1024 ==> (nearest_double_above_i64(value) / 2048) % 2 == 0,
{
    let q = value / 2048;
    let r = value % 2048;
    assert(((q + 1) * 2048) / 2048 == q + 1);
    assert((q * 2048) / 2048 == q);
}

/// A number can be counted in 64 bits exactly if it lies between -2^63 and 2^63; it is
/// such a count exactly if it is an integer that 64 bits hold and no negative zero.
pub proof fn law_counts_lie_within_their_span(d: Double)
    ensures
        d.within_i64_span() <==> d.finite() && -0x8000_0000_0000_0000 <= d.trunc()
            <= 0x8000_0000_0000_0000,
        d.exact_i64() ==> d.finite() && d.integral() && -0x8000_0000_0000_0000 <= d.trunc()
            < 0x8000_0000_0000_0000,
        d.finite() && d.integral() && -0x8000_0000_0000_0000 <= d.trunc() < 0x8000_0000_0000_0000
            && d.trunc() != 0 ==> d.exact_i64(),
        d.sign() && d.trunc() == 0 ==> !d.exact_i64(),
        !d.sign() && d.finite() && d.integral() && d.trunc() == 0 ==> d.exact_i64(),
        d.trunc() < 0 ==> d.below_zero(),
        d.below_zero() ==> d.sign(),
{
    d.lemma_whole_not_negative();
    if d.trunc() < 0 && d.significand() <= 0 {
        assert(d.significand() == 0);
        if d.scale() >= 0 {
            assert(d.whole() == 0 * pow2(d.scale() as nat));
            assert(0 * pow2(d.scale() as nat) == 0) by (nonlinear_arith);
        } else {
            vstd::arithmetic::power2::lemma_pow2_pos((-d.scale()) as nat);
            vstd::arithmetic::div_mod::lemma_div_of0(pow2((-d.scale()) as nat) as int);
        }
    }
}

/// This many bytes hold the number, and no fewer do.
pub proof fn law_magnitudes_take_the_bytes_they_need(value: int)
    ensures
        ({
            let n: nat = if value < 0 {
                (-value) as nat
            } else {
                value as nat
            };
            &&& magnitude_len(value) >= 1
            &&& n < pow2(8 * magnitude_len(value))
            &&& magnitude_len(value) > 1 ==> n >= pow2((8 * (magnitude_len(value) - 1)) as nat)
            &&& magnitude_len(value) == magnitude_len(-value)
        }),
{
    let n: nat = if value < 0 {
        (-value) as nat
    } else {
        value as nat
    };
    lemma_byte_count(n);
}

proof fn lemma_byte_count(n: nat)
    ensures
        byte_count(n) >= 1,
        n < pow2(8 * byte_count(n)),
        byte_count(n) > 1 ==> n >= pow2((8 * (byte_count(n) - 1)) as nat),
    decreases n,
{
    vstd::arithmetic::power2::lemma2_to64();
    if n >= 256 {
        lemma_byte_count(n / 256);
        let k = byte_count(n / 256);
        vstd::arithmetic::power2::lemma_pow2_adds(8 * k, 8);
        assert(pow2(8 * k + 8) == pow2(8 * k) * 256);
        assert(8 * k + 8 == 8 * byte_count(n));
        if k > 1 {
            vstd::arithmetic::power2::lemma_pow2_adds((8 * (k - 1)) as nat, 8);
        }
    }
}

/// A literal is read digit by digit: one more digit is ten times as much and the digit,
/// an underscore changes nothing, and any other character makes it no literal.
pub proof fn law_literals_are_read_digit_by_digit(text: Seq<char>, c: char)
    requires
        text.len() > 0,
        text[0] != '-',
        text[0] != '+',
        parse_decimal(text) is Some,
    ensures
        parse_decimal(text)->0 >= 0,
        '0' <= c <= '9' ==> parse_decimal(text.push(c)) == Some(
            10 * parse_decimal(text)->0 + (c as int - '0' as int),
        ),
        c == '_' ==> parse_decimal(text.push(c)) == parse_decimal(text),
        !('0' <= c <= '9') && c != '_' ==> parse_decimal(text.push(c)) is None,
        parse_decimal(seq!['-'] + text) == Some(-parse_decimal(text)->0),
        parse_decimal(seq!['+'] + text) == parse_decimal(text),
{
    let more = text.push(c);
    assert(more.drop_last() =~= text);
    assert((seq!['-'] + text).drop_first() =~= text);
    assert((seq!['+'] + text).drop_first() =~= text);
}

/// A single digit is its own value; nothing, a bare sign and an underscore in front are
/// no literals.
pub proof fn law_literals_start_with_a_digit(c: char)
    ensures
        '0' <= c <= '9' ==> parse_decimal(seq![c]) == Some(c as int - '0' as int),
        !('0' <= c <= '9') ==> parse_decimal(seq![c]) is None,
        parse_decimal(Seq::<char>::empty()) is None,
        parse_decimal(seq!['-', c]) == (if '0' <= c <= '9' {
            Some(-(c as int - '0' as int))
        } else {
            None
        }),
{
    assert(seq![c].drop_last() =~= Seq::<char>::empty());
    assert(seq!['-', c].drop_first() =~= seq![c]);
    assert(seq!['-'].drop_first() =~= Seq::<char>::empty());
    assert(seq!['+'].drop_first() =~= Seq::<char>::empty());
    assert(crate::bigint::digits_value(Seq::<char>::empty()) == Some(0nat));
}

/// The lowest word, or byte, of a number stands for itself and the others for as many
/// times the word's, or byte's, range.
pub proof fn law_words_are_the_lowest_first(word: u64, words: Seq<u64>, byte: u8, bytes: Seq<u8>)
    ensures
        words_value(Seq::<u64>::empty()) == 0,
        words_value(seq![word] + words) == word + pow2(64) * words_value(words),
        le_value(Seq::<u8>::empty()) == 0,
        le_value(seq![byte] + bytes) == byte + pow2(8) * le_value(bytes),
        signed_value(false, bytes) == le_value(bytes),
        signed_value(true, bytes) == -(le_value(bytes) as int),
{
    vstd::arithmetic::power2::lemma2_to64();
    vstd::arithmetic::power2::lemma2_to64_rest();
    assert((seq![word] + words).drop_first() =~= words);
    assert((seq![byte] + bytes).drop_first() =~= bytes);
}

/// A span is held at the longest there is.
pub proof fn law_spans_are_held_at_the_longest(nanos: nat)
    ensures
        nanos <= MAX_NANOS ==> saturating_span(nanos) == nanos,
        nanos > MAX_NANOS ==> saturating_span(nanos) == MAX_NANOS,
{
}

/// An unsigned integer that fits is read as that integer; one past the range as a double
/// that is an integer and at most half of its last place away.
pub proof fn law_unsigned_integers_are_read_nearest(u: u64)
    ensures
        u <= i64::MAX ==> unsigned_value(u) == JsView::Int(u as i64),
        u > i64::MAX ==> unsigned_value(u) is Float && {
            let d = Double { bits: unsigned_value(u)->Float_0 };
            &&& d.finite()
            &&& d.integral()
            &&& d.trunc() % 2048 == 0
            &&& d.trunc() - 1024 <= u <= d.trunc() + 1024
        },
{
    if u > i64::MAX {
        law_integers_past_the_range_are_held_nearest(u as int);
        let n = nearest_double_above_i64(u as int);
        let m = n / 2048;
        let span = FRACTION_SPAN as int;
        assert(span <= m <= 2 * span);
        let bits = 1085 * span + m;
        let d = Double { bits: unsigned_value(u)->Float_0 };
        assert(d.bits as int == bits);
        vstd::arithmetic::power2::lemma2_to64();
        assert(pow2(11) == 2048 && pow2(12) == 4096);
        if m < 2 * span {
            assert(bits / span == 1086 && bits % span == m - span);
            assert(d.whole() == m * 2048);
        } else {
            assert(bits / span == 1087 && bits % span == 0);
            assert(d.whole() == span * 4096);
        }
    }
}

} // verus!
