//! Double-precision values carried as their IEEE 754 bit patterns.
//!
//! Telemetry records hold latencies as double-precision numbers. This crate never
//! computes with them; it moves their 64-bit patterns around and, for the statistics
//! that count events, cuts them down to unsigned integers.

use vstd::arithmetic::power2::{lemma2_to64, lemma_pow2_pos, lemma_pow2_strictly_increases, pow2};
use vstd::bits::{lemma_u64_shl_is_mul, lemma_u64_shr_is_div};
use vstd::prelude::*;

verus! {

/// The pattern of positive zero.
pub const ZERO: u64 = 0;

/// Two to the power 52: the weight of the implicit leading bit of the significand.
pub const HIDDEN_BIT: u64 = 0x10_0000_0000_0000;

/// The biased exponent of the value one.
pub const EXPONENT_BIAS: u64 = 1023;

/// The biased exponent that marks infinities and NaNs.
pub const EXPONENT_SPECIAL: u64 = 0x7ff;

/// Whether the sign bit is set.
pub open spec fn sign_bit(bits: u64) -> bool {
    bits >= 0x8000_0000_0000_0000
}

/// The eleven exponent bits, as a number.
pub open spec fn biased_exponent(bits: u64) -> int {
    (bits as int / HIDDEN_BIT as int) % 0x800
}

/// The fifty-two fraction bits, as a number.
pub open spec fn fraction(bits: u64) -> int {
    bits as int % HIDDEN_BIT as int
}

/// Whether the pattern is a NaN.
pub open spec fn is_nan(bits: u64) -> bool {
    biased_exponent(bits) == EXPONENT_SPECIAL && fraction(bits) != 0
}

/// The unsigned integer that the value denoted by `bits` is cut down to: its integral
/// part where that lies in the range of `u64`, the nearest bound of that range where
/// it does not, and zero for a NaN.
///
/// A finite value with biased exponent `e >= 1` is `(2^52 + fraction) * 2^(e - 1075)`.
pub open spec fn truncated(bits: u64) -> int {
    let e = biased_exponent(bits);
    let significand = HIDDEN_BIT as int + fraction(bits);
    if is_nan(bits) || sign_bit(bits) || e < EXPONENT_BIAS {
        0
    } else if e >= EXPONENT_BIAS + 64 {
        u64::MAX as int
    } else if e >= EXPONENT_BIAS + 52 {
        significand * pow2((e - (EXPONENT_BIAS + 52)) as nat)
    } else {
        significand / (pow2(((EXPONENT_BIAS + 52) - e) as nat) as int)
    }
}

/// The fields of a pattern, read with shifts and masks, are the numbers that
/// `biased_exponent` and `fraction` define by division.
proof fn lemma_fields(bits: u64)
    ensures
        ((bits >> 63) == 1) == sign_bit(bits),
        ((bits >> 52) & 0x7ff) as int == biased_exponent(bits),
        (bits & 0xf_ffff_ffff_ffff) as int == fraction(bits),
        (bits & 0xf_ffff_ffff_ffff) < HIDDEN_BIT,
        ((bits & 0xf_ffff_ffff_ffff) | HIDDEN_BIT) == (bits & 0xf_ffff_ffff_ffff) + HIDDEN_BIT,
{
    assert(((bits >> 63) == 1) == (bits >= 0x8000_0000_0000_0000)) by (bit_vector);
    assert(((bits >> 52) & 0x7ff) == (bits / 0x10_0000_0000_0000) % 0x800) by (bit_vector);
    assert((bits & 0xf_ffff_ffff_ffff) == bits % 0x10_0000_0000_0000) by (bit_vector);
    assert((bits & 0xf_ffff_ffff_ffff) < 0x10_0000_0000_0000) by (bit_vector);
    assert(((bits & 0xf_ffff_ffff_ffff) | 0x10_0000_0000_0000) == (bits & 0xf_ffff_ffff_ffff)
        + 0x10_0000_0000_0000) by (bit_vector);
}

/// Cuts a double-precision value, given by its bit pattern, down to a `u64`, as a
/// saturating conversion does: the fractional part is dropped, values below zero
/// give zero, values above the range give `u64::MAX`, and a NaN gives zero.
pub fn truncate_to_u64(bits: u64) -> (count: u64)
    ensures
        count == truncated(bits),
{
    let negative = (bits >> 63) == 1;
    let exponent: u64 = (bits >> 52) & 0x7ff;
    let fraction_bits: u64 = bits & 0xf_ffff_ffff_ffff;
    proof {
        lemma_fields(bits);
    }
    if exponent == EXPONENT_SPECIAL && fraction_bits != 0 {
        return 0;
    }
    if negative || exponent < EXPONENT_BIAS {
        return 0;
    }
    if exponent >= EXPONENT_BIAS + 64 {
        return u64::MAX;
    }
    let significand: u64 = fraction_bits | HIDDEN_BIT;
    if exponent >= EXPONENT_BIAS + 52 {
        let shift: u64 = exponent - (EXPONENT_BIAS + 52);
        proof {
            lemma2_to64();
            lemma_pow2_pos(shift as nat);
            if shift < 11 {
                lemma_pow2_strictly_increases(shift as nat, 11);
            }
            assert(pow2(shift as nat) <= 0x800);
            assert(significand * pow2(shift as nat) <= u64::MAX) by (nonlinear_arith)
                requires
                    significand < 0x20_0000_0000_0000,
                    0 < pow2(shift as nat) <= 0x800,
            ;
            lemma_u64_shl_is_mul(significand, shift);
        }
        significand << shift
    } else {
        let shift: u64 = (EXPONENT_BIAS + 52) - exponent;
        proof {
            lemma_u64_shr_is_div(significand, shift);
        }
        significand >> shift
    }
}

} // verus!
