//! Ordering of IEEE 754 single-precision numbers, read from their bit
//! patterns.
//!
//! A probability reaches this library as the 32 bits of its single-precision
//! encoding: one sign bit, eight exponent bits, twenty-three fraction bits.
//! Among numbers of one sign the encoding is monotonic in the magnitude, which
//! is what the comparison below rests on.

use vstd::prelude::*;

verus! {

/// Encoding of positive zero.
pub const ZERO: u32 = 0;

/// Encoding of one.
pub const ONE: u32 = 0x3f80_0000;

/// Encoding of positive infinity; every larger magnitude is a NaN.
pub const INFINITY: u32 = 0x7f80_0000;

/// The sign bit; encodings from here up are negative.
pub const SIGN: u32 = 0x8000_0000;

/// Whether the sign bit of `bits` is set.
pub open spec fn is_negative(bits: u32) -> bool {
    bits >= SIGN
}

/// The encoding with its sign bit cleared.
pub open spec fn magnitude(bits: u32) -> int {
    if bits >= SIGN {
        bits - SIGN
    } else {
        bits as int
    }
}

/// Whether `bits` encodes a NaN.
pub open spec fn is_nan(bits: u32) -> bool {
    magnitude(bits) > INFINITY
}

/// Whether the number encoded by `a` is less than the one encoded by `b`.
/// A NaN is less than nothing and nothing is less than it; the two zeros are
/// equal.
pub open spec fn less_than(a: u32, b: u32) -> bool {
    if is_nan(a) || is_nan(b) {
        false
    } else if magnitude(a) == 0 && magnitude(b) == 0 {
        false
    } else if is_negative(a) != is_negative(b) {
        is_negative(a)
    } else if is_negative(a) {
        magnitude(a) > magnitude(b)
    } else {
        magnitude(a) < magnitude(b)
    }
}

/// Whether `bits` encodes a number of the half-open unit interval, zero
/// included and one excluded. Zero has two encodings, one of either sign.
pub open spec fn in_unit_interval(bits: u32) -> bool {
    bits < ONE || bits == SIGN
}

/// Whether `bits` encodes a number of the closed unit interval, zero and one
/// included. A NaN is no number and so is not in it.
pub open spec fn in_closed_unit_interval(bits: u32) -> bool {
    bits <= ONE || bits == SIGN
}

/// Tells whether `bits` encodes a NaN.
pub fn nan(bits: u32) -> (r: bool)
    ensures
        r == is_nan(bits),
{
    let magnitude: u32 = if bits >= SIGN {
        bits - SIGN
    } else {
        bits
    };
    magnitude > INFINITY
}

/// Compares two encoded numbers.
pub fn lt(a: u32, b: u32) -> (r: bool)
    ensures
        r == less_than(a, b),
{
    let a_negative = a >= SIGN;
    let b_negative = b >= SIGN;
    let a_magnitude: u32 = if a_negative {
        a - SIGN
    } else {
        a
    };
    let b_magnitude: u32 = if b_negative {
        b - SIGN
    } else {
        b
    };
    if a_magnitude > INFINITY || b_magnitude > INFINITY {
        false
    } else if a_magnitude == 0 && b_magnitude == 0 {
        false
    } else if a_negative != b_negative {
        a_negative
    } else if a_negative {
        a_magnitude > b_magnitude
    } else {
        a_magnitude < b_magnitude
    }
}

/// A number of the unit interval is below one, and below nothing that is
/// zero, negative or a NaN: it is below exactly the positive numbers, infinity
/// included, whose encoding is greater than its magnitude.
pub proof fn lemma_unit_draw(draw: u32, rate: u32)
    requires
        in_unit_interval(draw),
    ensures
        less_than(draw, ONE),
        !less_than(draw, ZERO),
        is_negative(rate) || is_nan(rate) ==> !less_than(draw, rate),
        less_than(draw, rate) <==> magnitude(draw) < rate <= INFINITY,
{
}

/// The closed unit interval holds exactly the numbers that are neither below
/// zero nor above one, and no NaN.
pub proof fn lemma_closed_unit_interval(bits: u32)
    ensures
        in_closed_unit_interval(bits) <==> !is_nan(bits) && !less_than(bits, ZERO) && !less_than(
            ONE,
            bits,
        ),
        in_unit_interval(bits) ==> in_closed_unit_interval(bits),
        in_closed_unit_interval(ZERO),
        in_closed_unit_interval(ONE),
{
}

} // verus!
