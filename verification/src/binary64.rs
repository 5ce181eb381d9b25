//! Point values are carried as IEEE 754 binary64 bit patterns. This module
//! holds the few questions that the rules of the tester ask of such a
//! pattern: whether it lies above one half, and which 32-bit integer it
//! truncates to.

use vstd::arithmetic::power2::pow2;
use vstd::prelude::*;

verus! {

/// Bit pattern of one half.
pub const VALUE_HALF: u64 = 0x3FE0_0000_0000_0000;

/// Bit pattern of positive infinity; every larger pattern with a clear sign
/// bit is a NaN.
pub const VALUE_INFINITY: u64 = 0x7FF0_0000_0000_0000;

/// Weight of the implicit leading bit of a normal number's significand.
pub const HIDDEN_BIT: u64 = 0x10_0000_0000_0000;

/// Whether the sign bit is set.
pub open spec fn is_negative(bits: u64) -> bool {
    bits >= 0x8000_0000_0000_0000
}

/// The eleven exponent bits.
pub open spec fn biased_exponent(bits: u64) -> int {
    (bits as int / HIDDEN_BIT as int) % 0x800
}

/// The fifty-two fraction bits.
pub open spec fn fraction(bits: u64) -> int {
    bits as int % HIDDEN_BIT as int
}

/// Whether the pattern is a NaN.
pub open spec fn is_nan(bits: u64) -> bool {
    biased_exponent(bits) == 0x7FF && fraction(bits) != 0
}

/// Whether the number is greater than one half. Patterns of positive numbers
/// are ordered as the numbers are; a NaN is greater than nothing.
pub open spec fn exceeds_half(bits: u64) -> bool {
    VALUE_HALF < bits <= VALUE_INFINITY
}

/// The number as a signed 32-bit integer: rounded toward zero, held to the
/// ends of the range where it lies beyond them, and zero for a NaN.
pub open spec fn truncated_i32(bits: u64) -> int {
    let exponent = biased_exponent(bits);
    if is_nan(bits) || exponent < 1023 {
        0
    } else if exponent >= 1054 {
        if is_negative(bits) {
            i32::MIN as int
        } else {
            i32::MAX as int
        }
    } else {
        let magnitude = (HIDDEN_BIT + fraction(bits)) / pow2((1075 - exponent) as nat) as int;
        if is_negative(bits) {
            -magnitude
        } else {
            magnitude
        }
    }
}

/// Decides [`exceeds_half`].
pub fn value_exceeds_half(bits: u64) -> (yes: bool)
    ensures
        yes == exceeds_half(bits),
{
    VALUE_HALF < bits && bits <= VALUE_INFINITY
}

/// Computes [`truncated_i32`].
pub fn value_to_i32(bits: u64) -> (n: i32)
    ensures
        n == truncated_i32(bits),
{
    let exponent: u64 = (bits >> 52) & 0x7FF;
    let frac: u64 = bits & 0xF_FFFF_FFFF_FFFF;
    let negative: bool = (bits >> 63) == 1;
    proof {
        assert(((bits >> 52) & 0x7FF) == (bits / 0x10_0000_0000_0000) % 0x800) by (bit_vector);
        assert((bits & 0xF_FFFF_FFFF_FFFF) == bits % 0x10_0000_0000_0000) by (bit_vector);
        assert(((bits >> 63) == 1) == (bits >= 0x8000_0000_0000_0000)) by (bit_vector);
        assert(exponent == biased_exponent(bits));
        assert(frac == fraction(bits));
        assert(negative == is_negative(bits));
    }
    if (exponent == 0x7FF && frac != 0) || exponent < 1023 {
        0
    } else if exponent >= 1054 {
        if negative {
            i32::MIN
        } else {
            i32::MAX
        }
    } else {
        let shift: u64 = 1075 - exponent;
        let significand: u64 = HIDDEN_BIT | frac;
        let magnitude: u64 = significand >> shift;
        proof {
            assert(frac < 0x10_0000_0000_0000 ==> (0x10_0000_0000_0000 | frac)
                == 0x10_0000_0000_0000 + frac) by (bit_vector);
            assert(22 <= shift <= 52 && significand < 0x20_0000_0000_0000 ==> (significand >> shift)
                < 0x8000_0000) by (bit_vector);
            vstd::bits::lemma_u64_shr_is_div(significand, shift);
        }
        if negative {
            -(magnitude as i32)
        } else {
            magnitude as i32
        }
    }
}

} // verus!
