//! Decimal amounts, held as the 64 bits of an IEEE 754 double.
//!
//! The library never computes with amounts; it only carries them and ranks
//! them. Both are exact on the bit pattern, so an amount is a `u64` here and
//! the ranking is stated over integers.

use vstd::prelude::*;

verus! {

/// The bit that holds the sign.
pub const SIGN_BIT: u64 = 0x8000_0000_0000_0000;

/// The magnitude of positive infinity; larger magnitudes are not numbers.
pub const INFINITY_BITS: u64 = 0x7ff0_0000_0000_0000;

/// The bits of the amount zero.
pub const ZERO_BITS: u64 = 0;

/// The bit pattern without its sign.
pub open spec fn magnitude(bits: u64) -> int {
    if bits >= SIGN_BIT {
        bits - SIGN_BIT
    } else {
        bits as int
    }
}

/// Whether the bit pattern is not a number.
pub open spec fn is_nan(bits: u64) -> bool {
    magnitude(bits) > INFINITY_BITS
}

/// An integer that orders numbers as their values are ordered: the
/// magnitude, negated under the sign bit. Both zeros have rank 0.
pub open spec fn rank(bits: u64) -> int {
    if bits >= SIGN_BIT {
        -magnitude(bits)
    } else {
        magnitude(bits)
    }
}

/// `a` is strictly greater than `b`. False when either is not a number.
pub open spec fn exceeds(a: u64, b: u64) -> bool {
    !is_nan(a) && !is_nan(b) && rank(a) > rank(b)
}

/// Decides whether amount `a` is strictly greater than amount `b`.
pub fn amount_exceeds(a: u64, b: u64) -> (r: bool)
    ensures
        r == exceeds(a, b),
{
    let a_neg = a >= SIGN_BIT;
    let b_neg = b >= SIGN_BIT;
    let ma: u64 = if a_neg { a - SIGN_BIT } else { a };
    let mb: u64 = if b_neg { b - SIGN_BIT } else { b };
    if ma > INFINITY_BITS || mb > INFINITY_BITS {
        false
    } else if a_neg {
        b_neg && ma < mb
    } else if b_neg {
        ma > 0 || mb > 0
    } else {
        ma > mb
    }
}

} // verus!
