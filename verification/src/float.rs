//! Binary64 values carried by their IEEE-754 bit patterns.
//!
//! The library compares such values only through the order of their
//! encodings: a pattern is NaN when its exponent bits are all ones and its
//! fraction is not zero; otherwise, with the sign bit cleared, the remaining
//! 63 bits grow with the magnitude. `float_key` folds the sign in, so that
//! for non-NaN patterns `x <= y` as numbers exactly when
//! `float_key(x) <= float_key(y)` (both zeros get key 0).
use vstd::prelude::*;

verus! {

/// Bit pattern of the sign bit.
pub const SIGN_BIT: u64 = 0x8000_0000_0000_0000;

/// Bit pattern of positive infinity.
pub const POSITIVE_INFINITY_BITS: u64 = 0x7ff0_0000_0000_0000;

/// Bit pattern of 0.0.
pub const ZERO_BITS: u64 = 0;

/// Bit pattern of 1.0.
pub const ONE_BITS: u64 = 0x3ff0_0000_0000_0000;

/// Bit pattern of 90.0.
pub const NINETY_BITS: u64 = 0x4056_8000_0000_0000;

/// Bit pattern of -90.0.
pub const MINUS_NINETY_BITS: u64 = 0xc056_8000_0000_0000;

/// Bit pattern of 180.0.
pub const ONE_EIGHTY_BITS: u64 = 0x4066_8000_0000_0000;

/// Bit pattern of -180.0.
pub const MINUS_ONE_EIGHTY_BITS: u64 = 0xc066_8000_0000_0000;

/// Bit pattern of 360.0.
pub const THREE_SIXTY_BITS: u64 = 0x4076_8000_0000_0000;

/// The pattern encodes NaN.
pub open spec fn float_is_nan(bits: u64) -> bool {
    bits % SIGN_BIT > POSITIVE_INFINITY_BITS
}

/// Order key of a non-NaN pattern: its magnitude bits, negated when the
/// sign bit is set.
pub open spec fn float_key(bits: u64) -> int {
    if bits < SIGN_BIT {
        bits as int
    } else {
        -((bits - SIGN_BIT) as int)
    }
}

/// `(lo..=hi).contains(&x)` for non-NaN bounds `lo` and `hi`.
pub open spec fn float_in_range(x: u64, lo: u64, hi: u64) -> bool {
    !float_is_nan(x) && float_key(lo) <= float_key(x) && float_key(x) <= float_key(hi)
}

/// `x < 0.0`.
pub open spec fn float_is_negative(x: u64) -> bool {
    !float_is_nan(x) && float_key(x) < 0
}

/// `x > y`.
pub open spec fn float_greater(x: u64, y: u64) -> bool {
    !float_is_nan(x) && !float_is_nan(y) && float_key(x) > float_key(y)
}

fn is_nan(bits: u64) -> (r: bool)
    ensures
        r == float_is_nan(bits),
{
    bits % SIGN_BIT > POSITIVE_INFINITY_BITS
}

fn key(bits: u64) -> (k: i128)
    ensures
        k == float_key(bits),
{
    if bits < SIGN_BIT {
        bits as i128
    } else {
        -((bits - SIGN_BIT) as i128)
    }
}

/// `(lo..=hi).contains(&x)`.
pub fn in_range(x: u64, lo: u64, hi: u64) -> (r: bool)
    ensures
        r == float_in_range(x, lo, hi),
{
    !is_nan(x) && key(lo) <= key(x) && key(x) <= key(hi)
}

/// `x < 0.0`.
pub fn is_negative(x: u64) -> (r: bool)
    ensures
        r == float_is_negative(x),
{
    !is_nan(x) && key(x) < 0
}

/// `x > y`.
pub fn greater(x: u64, y: u64) -> (r: bool)
    ensures
        r == float_greater(x, y),
{
    !is_nan(x) && !is_nan(y) && key(x) > key(y)
}

} // verus!
