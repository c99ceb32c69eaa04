//! Classification of IEEE-754 single-precision values by their bit pattern.
//!
//! A pattern is the 32-bit word that `f32::to_bits` yields: one sign bit,
//! eight exponent bits, twenty-three fraction bits. Among patterns with a
//! clear sign bit the numeric order of the values they denote is the order
//! of the words themselves, which is all that the classifications below
//! rely on.

use vstd::prelude::*;

verus! {

/// The sign bit of a pattern.
pub const SIGN_BIT: u32 = 0x8000_0000;

/// The pattern of positive infinity; every greater magnitude denotes a NaN.
pub const INFINITY_BITS: u32 = 0x7f80_0000;

/// The pattern of the value one.
pub const ONE_BITS: u32 = 0x3f80_0000;

/// The pattern with its sign bit cleared.
pub open spec fn magnitude_of(bits: u32) -> int {
    if bits >= SIGN_BIT {
        bits - SIGN_BIT
    } else {
        bits as int
    }
}

/// The pattern has its sign bit set.
pub open spec fn denotes_negative_sign(bits: u32) -> bool {
    bits >= SIGN_BIT
}

/// The pattern denotes a number `x` with `x > 0`: the sign bit is clear and
/// the rest is neither zero nor beyond infinity. Positive infinity counts;
/// no NaN does.
pub open spec fn denotes_positive(bits: u32) -> bool {
    !denotes_negative_sign(bits) && 0 < bits <= INFINITY_BITS
}

/// The pattern denotes a number `x` with `0 <= x < 1`: a zero of either
/// sign, or a positive number whose pattern lies below that of one. No NaN
/// does, nor an infinity.
pub open spec fn denotes_unit_fraction(bits: u32) -> bool {
    magnitude_of(bits) == 0 || (!denotes_negative_sign(bits) && bits < ONE_BITS)
}

/// Clears the sign bit.
pub fn magnitude(bits: u32) -> (r: u32)
    ensures
        r == magnitude_of(bits),
{
    if bits >= SIGN_BIT {
        bits - SIGN_BIT
    } else {
        bits
    }
}

/// Whether the pattern denotes a number above zero.
pub fn is_positive(bits: u32) -> (r: bool)
    ensures
        r == denotes_positive(bits),
{
    0 < bits && bits <= INFINITY_BITS
}

/// Whether the pattern denotes a number in the half-open interval from
/// zero to one.
pub fn is_unit_fraction(bits: u32) -> (r: bool)
    ensures
        r == denotes_unit_fraction(bits),
{
    magnitude(bits) == 0 || bits < ONE_BITS
}

} // verus!
