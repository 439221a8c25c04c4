//! Readings are IEEE-754 single-precision values, held as their 32-bit words
//! (the form in which sensor nodes send them). This module orders such words
//! the way `<` orders the values they encode: NaN compares with nothing, and
//! `-0.0` equals `0.0`.
use vstd::prelude::*;

verus! {

/// The word of `0.0`.
pub const ZERO: u32 = 0x0000_0000;

/// The word of `5.0`.
pub const FIVE: u32 = 0x40A0_0000;

/// The word of `100.0`.
pub const HUNDRED: u32 = 0x42C8_0000;

/// The word of `125.0`.
pub const HUNDRED_TWENTY_FIVE: u32 = 0x42FA_0000;

/// The word of `-40.0`.
pub const MINUS_FORTY: u32 = 0xC220_0000;

/// The sign bit of a word.
pub open spec fn is_negative_word(w: u32) -> bool {
    w >= 0x8000_0000
}

/// The word without its sign bit: exponent and mantissa.
pub open spec fn magnitude(w: u32) -> int {
    (w % 0x8000_0000) as int
}

/// A word whose exponent bits are all set and whose mantissa is not zero.
pub open spec fn is_nan_word(w: u32) -> bool {
    magnitude(w) > 0x7F80_0000
}

/// The position of a non-NaN word on the number line: the magnitude bits
/// grow with the absolute value, and the sign flips the side.
pub open spec fn order_key(w: u32) -> int {
    if is_negative_word(w) { -magnitude(w) } else { magnitude(w) }
}

/// `a < b` on the values that the words encode.
pub open spec fn word_lt(a: u32, b: u32) -> bool {
    !is_nan_word(a) && !is_nan_word(b) && order_key(a) < order_key(b)
}

/// Whether the value encoded by `a` is less than the value encoded by `b`.
pub fn lt(a: u32, b: u32) -> (r: bool)
    ensures
        r == word_lt(a, b),
{
    let ma: u32 = a % 0x8000_0000;
    let mb: u32 = b % 0x8000_0000;
    if ma > 0x7F80_0000 || mb > 0x7F80_0000 {
        return false;
    }
    let ka: i64 = if a >= 0x8000_0000 { -(ma as i64) } else { ma as i64 };
    let kb: i64 = if b >= 0x8000_0000 { -(mb as i64) } else { mb as i64 };
    ka < kb
}

/// `<` on encoded values is irreflexive and transitive: a strict order.
pub proof fn lemma_lt_strict_order(a: u32, b: u32, c: u32)
    ensures
        !word_lt(a, a),
        word_lt(a, b) && word_lt(b, c) ==> word_lt(a, c),
        word_lt(a, b) ==> !word_lt(b, a),
{
}

/// A NaN word is neither below nor above any word.
pub proof fn lemma_nan_unordered(a: u32, b: u32)
    requires
        is_nan_word(a),
    ensures
        !word_lt(a, b),
        !word_lt(b, a),
{
}

/// The two zeros, `0.0` and `-0.0`, encode the same value.
pub proof fn lemma_zeros_equal(w: u32)
    ensures
        !word_lt(0x0000_0000, 0x8000_0000),
        !word_lt(0x8000_0000, 0x0000_0000),
        word_lt(0x0000_0000, w) <==> word_lt(0x8000_0000, w),
{
}

/// How readings order, stated on the raw words: a word with exponent bits
/// all set and a non-zero mantissa (NaN) is below and above nothing; two
/// non-negative words order as unsigned integers; two negative words order
/// the other way round; a negative word is below a non-negative one, except
/// `-0.0` against `0.0`, which are equal.
pub proof fn lemma_word_order(a: u32, b: u32)
    ensures
        (a % 0x8000_0000 > 0x7F80_0000 || b % 0x8000_0000 > 0x7F80_0000) ==> !word_lt(a, b),
        a % 0x8000_0000 <= 0x7F80_0000 && b % 0x8000_0000 <= 0x7F80_0000 ==> {
            &&& (a < 0x8000_0000 && b < 0x8000_0000) ==> (word_lt(a, b) <==> a < b)
            &&& (a >= 0x8000_0000 && b >= 0x8000_0000) ==> (word_lt(a, b) <==> b < a)
            &&& (a >= 0x8000_0000 && b < 0x8000_0000) ==> (word_lt(a, b) <==> !(a == 0x8000_0000 && b == 0))
            &&& (a < 0x8000_0000 && b >= 0x8000_0000) ==> !word_lt(a, b)
        },
{
    if a >= 0x8000_0000 {
        assert(a % 0x8000_0000 == a - 0x8000_0000);
    } else {
        assert(a % 0x8000_0000 == a);
    }
    if b >= 0x8000_0000 {
        assert(b % 0x8000_0000 == b - 0x8000_0000);
    } else {
        assert(b % 0x8000_0000 == b);
    }
}

} // verus!
