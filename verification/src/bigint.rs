//! Arbitrary-precision integers as a sign and little-endian magnitude bytes.

use crate::text::{decimal, int_decimal};
use vstd::prelude::*;

verus! {

/// The number that little-endian base-256 digits stand for.
pub open spec fn le_value(bytes: Seq<u8>) -> nat
    decreases bytes.len(),
{
    if bytes.len() == 0 {
        0
    } else {
        bytes[0] as nat + 256 * le_value(bytes.drop_first())
    }
}

/// The number that a sign and a magnitude stand for.
pub open spec fn signed_value(negative: bool, magnitude: Seq<u8>) -> int {
    if negative {
        -(le_value(magnitude) as int)
    } else {
        le_value(magnitude) as int
    }
}

/// One zero byte for zero, otherwise no zero byte at the high end; zero is not negative.
pub open spec fn canonical(negative: bool, magnitude: Seq<u8>) -> bool {
    &&& magnitude.len() >= 1
    &&& magnitude.last() == 0 ==> magnitude.len() == 1 && !negative
}

pub open spec fn is_digit(c: char) -> bool {
    '0' <= c && c <= '9'
}

/// The number that decimal digits stand for, underscores skipped; `None` when
/// another character occurs.
pub open spec fn digits_value(text: Seq<char>) -> Option<nat>
    decreases text.len(),
{
    if text.len() == 0 {
        Some(0nat)
    } else {
        match digits_value(text.drop_last()) {
            None => None,
            Some(high) => if text.last() == '_' {
                Some(high)
            } else if is_digit(text.last()) {
                Some((10 * high + (text.last() as int - '0' as int)) as nat)
            } else {
                None
            },
        }
    }
}

/// The integer that a decimal literal stands for: one optional sign, then a
/// digit, then digits and underscores.
pub open spec fn parse_decimal(text: Seq<char>) -> Option<int> {
    let signed = text.len() > 0 && (text[0] == '-' || text[0] == '+');
    let body = if signed {
        text.drop_first()
    } else {
        text
    };
    if body.len() == 0 || body[0] == '_' {
        None
    } else {
        match digits_value(body) {
            None => None,
            Some(magnitude) => Some(
                if text[0] == '-' {
                    -(magnitude as int)
                } else {
                    magnitude as int
                },
            ),
        }
    }
}

/// Parses a decimal literal with `num_bigint::BigInt::parse_bytes` (radix 10)
/// and takes the result apart with `to_bytes_le`.
///
/// Trusted: the call succeeds exactly on the literals that `parse_decimal`
/// describes, the sign and bytes stand for the same integer, and the bytes are
/// the shortest ones (a single zero byte for zero).
#[verifier::external_body]
fn bigint_parse_bytes(text: &str) -> (r: Option<(bool, Vec<u8>)>)
    ensures
        match r {
            Some(parts) => parse_decimal(text@) == Some(signed_value(parts.0, parts.1@))
                && canonical(parts.0, parts.1@),
            None => parse_decimal(text@) is None,
        },
{
    num_bigint::BigInt::parse_bytes(text.as_bytes(), 10).map(
        |value|
            {
                let (sign, bytes) = value.to_bytes_le();
                (sign == num_bigint::Sign::Minus, bytes)
            },
    )
}

/// Formats with `num_bigint::BigInt::to_str_radix` (radix 10) the integer that
/// `from_bytes_le` builds from a sign and bytes.
///
/// Trusted: the text is the decimal numeral of that integer, with `-` before it
/// when it is negative.
#[verifier::external_body]
fn bigint_to_str_radix(negative: bool, magnitude: &Vec<u8>) -> (text: String)
    ensures
        text@ == int_decimal(signed_value(negative, magnitude@)),
{
    let sign = if negative { num_bigint::Sign::Minus } else { num_bigint::Sign::Plus };
    num_bigint::BigInt::from_bytes_le(sign, magnitude).to_str_radix(10)
}

/// Widens with `num_bigint::BigInt::from` and takes the result apart with
/// `to_bytes_le`.
///
/// Trusted: the sign and bytes stand for the same integer, and the bytes are
/// the shortest ones.
#[verifier::external_body]
fn bigint_from_i64(value: i64) -> (r: (bool, Vec<u8>))
    ensures
        signed_value(r.0, r.1@) == value,
        canonical(r.0, r.1@),
{
    let (sign, bytes) = num_bigint::BigInt::from(value).to_bytes_le();
    (sign == num_bigint::Sign::Minus, bytes)
}

/// An arbitrary-precision integer.
#[derive(Debug)]
pub struct JsBigInt {
    negative: bool,
    magnitude: Vec<u8>,
}

impl Clone for JsBigInt {
    fn clone(&self) -> (r: Self)
        ensures
            r@ == self@,
    {
        proof {
            use_type_invariant(self);
        }
        let magnitude: Vec<u8> = self.magnitude.clone();
        assert(magnitude@ == self.magnitude@);
        JsBigInt { negative: self.negative, magnitude }
    }
}

impl View for JsBigInt {
    type V = int;

    closed spec fn view(&self) -> int {
        signed_value(self.negative, self.magnitude@)
    }
}

/// The number of bytes in the shortest magnitude of `value`; zero takes one.
pub open spec fn magnitude_len(value: int) -> nat {
    byte_count(if value < 0 { (-value) as nat } else { value as nat })
}

/// The number of base-256 digits of `n`; zero takes one.
pub open spec fn byte_count(n: nat) -> nat
    decreases n,
{
    if n < 256 {
        1
    } else {
        1 + byte_count(n / 256)
    }
}

impl JsBigInt {
    #[verifier::type_invariant]
    closed spec fn well_formed(self) -> bool {
        canonical(self.negative, self.magnitude@)
    }

    /// Reads a decimal literal.
    pub fn parse(text: &str) -> (r: Option<JsBigInt>)
        ensures
            match r {
                Some(value) => parse_decimal(text@) == Some(value@),
                None => parse_decimal(text@) is None,
            },
    {
        match bigint_parse_bytes(text) {
            Some((negative, magnitude)) => Some(JsBigInt { negative, magnitude }),
            None => None,
        }
    }

    /// The decimal numeral.
    pub fn to_decimal(&self) -> (text: String)
        ensures
            text@ == int_decimal(self@),
    {
        bigint_to_str_radix(self.negative, &self.magnitude)
    }

    pub fn from_i64(value: i64) -> (r: JsBigInt)
        ensures
            r@ == value,
    {
        let (negative, magnitude): (bool, Vec<u8>) = bigint_from_i64(value);
        JsBigInt { negative, magnitude }
    }

    /// Builds the integer with the given sign and little-endian magnitude bytes.
    pub fn from_bytes_le(negative: bool, bytes: Vec<u8>) -> (r: JsBigInt)
        ensures
            r@ == signed_value(negative, bytes@),
    {
        let ghost value: nat = le_value(bytes@);
        let mut magnitude: Vec<u8> = bytes;
        while magnitude.len() > 1 && magnitude[magnitude.len() - 1] == 0
            invariant
                le_value(magnitude@) == value,
            decreases magnitude@.len(),
        {
            proof {
                lemma_le_value_last(magnitude@);
            }
            let _ = magnitude.pop();
        }
        if magnitude.len() == 0 {
            magnitude.push(0);
            proof {
                lemma_le_value_one(magnitude@);
            }
        }
        if magnitude.len() == 1 && magnitude[0] == 0 {
            proof {
                lemma_le_value_one(magnitude@);
            }
            return JsBigInt { negative: false, magnitude };
        }
        JsBigInt { negative, magnitude }
    }

    pub fn is_negative(&self) -> (yes: bool)
        ensures
            yes == (self@ < 0),
    {
        proof {
            use_type_invariant(self);
            lemma_le_value_positive(self.magnitude@);
        }
        self.negative
    }

    /// The number of bytes of the shortest magnitude.
    pub fn magnitude_bytes(&self) -> (n: usize)
        ensures
            n == magnitude_len(self@),
    {
        proof {
            use_type_invariant(self);
            lemma_byte_count(self.magnitude@);
        }
        self.magnitude.len()
    }

    /// The magnitude as 64-bit words, lowest first.
    pub fn words(&self) -> (words: Vec<u64>)
        ensures
            words_value(words@) == if self@ < 0 { -self@ } else { self@ },
            words@.len() == (magnitude_len(self@) + 7) / 8,
    {
        proof {
            use_type_invariant(self);
            lemma_byte_count(self.magnitude@);
            lemma_le_value_positive(self.magnitude@);
            assert(self.magnitude@.skip(0) == self.magnitude@);
        }
        words_from(&self.magnitude, 0)
    }
}

/// The number that little-endian 64-bit words stand for.
pub open spec fn words_value(words: Seq<u64>) -> nat
    decreases words.len(),
{
    if words.len() == 0 {
        0
    } else {
        words[0] as nat + 0x1_0000_0000_0000_0000 * words_value(words.drop_first())
    }
}

/// Packs `bytes[from..]` eight at a time, lowest first.
fn words_from(bytes: &Vec<u8>, from: usize) -> (words: Vec<u64>)
    requires
        from <= bytes@.len(),
    ensures
        words_value(words@) == le_value(bytes@.skip(from as int)),
        words@.len() == (bytes@.len() - from + 7) / 8,
    decreases bytes@.len() - from,
{
    if from == bytes.len() {
        return Vec::new();
    }
    let left: usize = bytes.len() - from;
    let taken: usize = if left < 8 { left } else { 8 };
    let word: u64 = pack(bytes, from, taken);
    let mut words: Vec<u64> = words_from(bytes, from + taken);
    proof {
        let all = bytes@.skip(from as int);
        lemma_le_value_split(all, taken as int);
        assert(all.take(taken as int) == bytes@.subrange(from as int, from + taken));
        assert(all.skip(taken as int) == bytes@.skip(from + taken));
        if taken < 8 {
            assert(bytes@.skip(from + taken) == Seq::<u8>::empty());
            assert(le_value(bytes@.skip(from + taken)) == 0);
        } else {
            reveal_with_fuel(power256, 9);
            assert(power256(8) == 0x1_0000_0000_0000_0000);
        }
    }
    let ghost high = words@;
    words.insert(0, word);
    assert(words@.drop_first() == high);
    words
}

/// The number that `count` bytes from position `from` on stand for.
fn pack(bytes: &Vec<u8>, from: usize, count: usize) -> (word: u64)
    requires
        count <= 8,
        from + count <= bytes.len(),
    ensures
        word == le_value(bytes@.subrange(from as int, from + count)),
        word < power256(count as nat),
    decreases count,
{
    if count == 0 {
        return 0;
    }
    let high: u64 = pack(bytes, from + 1, count - 1);
    proof {
        let all = bytes@.subrange(from as int, from + count);
        assert(all.drop_first() == bytes@.subrange(from + 1, from + count));
        reveal_with_fuel(power256, 9);
        assert(power256(count as nat) == 256 * power256((count - 1) as nat));
        lemma_power256_bound((count - 1) as nat);
    }
    bytes[from] as u64 + 256 * high
}

/// 256 to the power of `n`.
pub open spec fn power256(n: nat) -> nat
    decreases n,
{
    if n == 0 {
        1
    } else {
        256 * power256((n - 1) as nat)
    }
}

proof fn lemma_power256_bound(n: nat)
    requires
        n <= 7,
    ensures
        power256(n) <= 0x100_0000_0000_0000,
{
    reveal_with_fuel(power256, 9);
}

proof fn lemma_le_value_split(bytes: Seq<u8>, at: int)
    requires
        0 <= at <= bytes.len(),
    ensures
        le_value(bytes) == le_value(bytes.take(at)) + power256(at as nat) * le_value(
            bytes.skip(at),
        ),
    decreases at,
{
    if at == 0 {
        assert(bytes.take(0) == Seq::<u8>::empty());
        assert(bytes.skip(0) == bytes);
        assert(le_value(Seq::<u8>::empty()) == 0);
        let v = le_value(bytes) as int;
        assert(power256(0) as int * v == v) by (nonlinear_arith)
            requires
                power256(0) == 1,
        ;
    } else {
        lemma_le_value_split(bytes.drop_first(), at - 1);
        assert(bytes.take(at).drop_first() == bytes.drop_first().take(at - 1));
        assert(bytes.drop_first().skip(at - 1) == bytes.skip(at));
        let p = power256((at - 1) as nat) as int;
        let v = le_value(bytes.skip(at)) as int;
        let q = power256(at as nat) as int;
        assert(q * v == 256 * (p * v)) by (nonlinear_arith)
            requires
                q == 256 * p,
        ;
    }
}

proof fn lemma_le_value_one(bytes: Seq<u8>)
    requires
        bytes.len() == 1,
    ensures
        le_value(bytes) == bytes[0] as nat,
{
    assert(bytes.drop_first() == Seq::<u8>::empty());
    assert(le_value(Seq::<u8>::empty()) == 0);
}

proof fn lemma_le_value_last(bytes: Seq<u8>)
    requires
        bytes.len() > 0,
        bytes.last() == 0,
    ensures
        le_value(bytes.drop_last()) == le_value(bytes),
    decreases bytes.len(),
{
    if bytes.len() == 1 {
        lemma_le_value_one(bytes);
        assert(bytes.drop_last() == Seq::<u8>::empty());
    } else {
        lemma_le_value_last(bytes.drop_first());
        assert(bytes.drop_last().drop_first() == bytes.drop_first().drop_last());
    }
}

proof fn lemma_le_value_positive(bytes: Seq<u8>)
    ensures
        bytes.len() > 0 && bytes.last() != 0 ==> le_value(bytes) > 0,
    decreases bytes.len(),
{
    if bytes.len() > 1 {
        lemma_le_value_positive(bytes.drop_first());
        assert(bytes.drop_first().last() == bytes.last());
    }
}

proof fn lemma_byte_count(bytes: Seq<u8>)
    requires
        bytes.len() >= 1,
        bytes.last() == 0 ==> bytes.len() == 1,
    ensures
        byte_count(le_value(bytes)) == bytes.len(),
    decreases bytes.len(),
{
    if bytes.len() == 1 {
        lemma_le_value_one(bytes);
    } else {
        lemma_byte_count(bytes.drop_first());
        assert(bytes.drop_first().last() == bytes.last());
        lemma_le_value_positive(bytes.drop_first());
        let high = le_value(bytes.drop_first());
        assert((bytes[0] as nat + 256 * high) / 256 == high);
    }
}

proof fn lemma_digits_of_decimal(n: nat)
    ensures
        digits_value(decimal(n)) == Some(n),
        decimal(n).len() > 0,
        is_digit(decimal(n)[0]),
    decreases n,
{
    if n < 10 {
        assert(decimal(n).drop_last() == Seq::<char>::empty());
        assert(digits_value(Seq::<char>::empty()) == Some(0nat));
    } else {
        lemma_digits_of_decimal(n / 10);
        assert(decimal(n).drop_last() == decimal(n / 10));
        assert(decimal(n)[0] == decimal(n / 10)[0]);
    }
}

/// Reading the decimal numeral of an integer gives the integer back.
pub proof fn law_parse_of_decimal(i: int)
    ensures
        parse_decimal(int_decimal(i)) == Some(i),
{
    if i < 0 {
        lemma_digits_of_decimal((-i) as nat);
        assert(int_decimal(i).drop_first() == decimal((-i) as nat));
    } else {
        lemma_digits_of_decimal(i as nat);
    }
}

} // verus!
