//! Brightness on the five-bit scale of the LED chain.
//!
//! Callers give a brightness as a number between 0 and 1, written as the bit
//! pattern of an IEEE 754 single-precision number (what `f32::to_bits`
//! returns). This module says which number such a pattern denotes and finds
//! the level nearest to 31 times that number, in integer arithmetic.

use vstd::prelude::*;
use vstd::arithmetic::div_mod::lemma_fundamental_div_mod;
use vstd::arithmetic::div_mod::lemma_basic_div;
use vstd::arithmetic::power2::pow2;
use vstd::arithmetic::power2::lemma2_to64;
use vstd::arithmetic::power2::lemma_pow2_pos;
use vstd::arithmetic::power2::lemma_pow2_unfold;
use vstd::arithmetic::power2::lemma_pow2_strictly_increases;
use vstd::bits::lemma_u64_shl_is_mul;
use vstd::bits::lemma_u64_shr_is_div;

verus! {

/// The highest level of brightness.
pub const MAX_LEVEL: u8 = 31;

/// The bit pattern of 1.0.
pub const ONE: u32 = 0x3F80_0000;

/// The bit pattern of -0.0, which compares equal to 0.0.
pub const NEGATIVE_ZERO: u32 = 0x8000_0000;

/// The exponent field of a bit pattern.
pub open spec fn exponent_field(bits: u32) -> u32 {
    (bits >> 23) & 0xFF
}

/// The fraction field of a bit pattern.
pub open spec fn fraction_field(bits: u32) -> u32 {
    bits & 0x7F_FFFF
}

/// The significand of the number that `bits` denotes: the fraction field, with
/// the implicit leading one unless the number is subnormal.
pub open spec fn significand(bits: u32) -> nat {
    if exponent_field(bits) == 0 {
        fraction_field(bits) as nat
    } else {
        (0x80_0000 + fraction_field(bits)) as nat
    }
}

/// The number that `bits` denotes, sign aside, is
/// `significand(bits) / pow2(scale(bits))`.
pub open spec fn scale(bits: u32) -> nat {
    if exponent_field(bits) == 0 {
        149
    } else {
        (150 - exponent_field(bits)) as nat
    }
}

/// Whether `bits` denotes a number from 0 to 1, both included: a pattern with
/// a clear sign bit up to that of 1.0, or negative zero.
pub open spec fn is_unit(bits: u32) -> bool {
    bits <= ONE || bits == NEGATIVE_ZERO
}

/// The level nearest to 31 times the number that `bits` denotes; a number
/// halfway between two levels goes to the higher one.
pub open spec fn nearest_level(bits: u32) -> nat {
    (62 * significand(bits) + pow2(scale(bits))) / pow2(scale(bits) + 1)
}

proof fn lemma_fields(bits: u32)
    requires
        is_unit(bits),
    ensures
        exponent_field(bits) <= 127,
        fraction_field(bits) < 0x80_0000,
        exponent_field(bits) == 127 ==> fraction_field(bits) == 0,
{
    assert(bits <= 0x3F80_0000u32 || bits == 0x8000_0000u32 ==> ((bits >> 23) & 0xFF) <= 127
        && (bits & 0x7F_FFFF) < 0x80_0000 && (((bits >> 23) & 0xFF) == 127 ==> (bits & 0x7F_FFFF)
        == 0)) by (bit_vector);
}

/// A pattern that `is_unit` accepts denotes a number that is at most 1.
pub proof fn lemma_unit_is_at_most_one(bits: u32)
    requires
        is_unit(bits),
    ensures
        23 <= scale(bits) <= 149,
        significand(bits) <= pow2(scale(bits)),
{
    lemma_fields(bits);
    lemma2_to64();
    let e = exponent_field(bits);
    if e == 0 {
        lemma_pow2_strictly_increases(23, 149);
    } else if e < 126 {
        lemma_pow2_strictly_increases(24, scale(bits));
    }
}

/// The level of a brightness is the nearest one: it is at most 31 and lies
/// within one half of 31 times the number, a half rounded up. With the number
/// written as `s / p`, that is `level - 1/2 <= 31 * s / p < level + 1/2`.
pub proof fn lemma_level_is_nearest(bits: u32)
    requires
        is_unit(bits),
    ensures
        nearest_level(bits) <= MAX_LEVEL,
        2 * nearest_level(bits) * pow2(scale(bits)) - pow2(scale(bits)) <= 62 * significand(bits),
        62 * significand(bits) < 2 * nearest_level(bits) * pow2(scale(bits)) + pow2(scale(bits)),
{
    lemma_unit_is_at_most_one(bits);
    let s = significand(bits) as int;
    let p = pow2(scale(bits)) as int;
    let level = nearest_level(bits) as int;
    lemma_pow2_pos(scale(bits));
    lemma_pow2_unfold(scale(bits) + 1);
    assert(pow2(scale(bits) + 1) == 2 * p);
    lemma_fundamental_div_mod(62 * s + p, 2 * p);
    assert(62 * s + p == (2 * p) * level + (62 * s + p) % (2 * p));
    assert((2 * p) * level == 2 * level * p) by (nonlinear_arith);
    assert(level <= 31) by (nonlinear_arith)
        requires
            2 * level * p <= 62 * s + p,
            s <= p,
            0 < p,
    ;
}

/// The level of the number 0 is 0, and that of the number 1 is 31.
pub proof fn lemma_levels_at_the_ends()
    ensures
        nearest_level(0) == 0,
        nearest_level(NEGATIVE_ZERO) == 0,
        nearest_level(ONE) == MAX_LEVEL,
{
    assert(exponent_field(0) == 0 && fraction_field(0) == 0) by (bit_vector);
    assert(exponent_field(0x8000_0000) == 0 && fraction_field(0x8000_0000) == 0)
        by (bit_vector);
    assert(exponent_field(0x3F80_0000) == 127 && fraction_field(0x3F80_0000) == 0)
        by (bit_vector);
    lemma2_to64();
    lemma_pow2_pos(149);
    lemma_pow2_unfold(150);
    lemma_basic_div(pow2(149) as int, pow2(150) as int);
    assert(scale(ONE) == 23 && significand(ONE) == 0x80_0000);
    assert(nearest_level(ONE) == (62 * 0x80_0000 + 0x80_0000) / 0x100_0000);
}

/// Whether `bits` denotes a number from 0 to 1.
#[verifier::when_used_as_spec(is_unit)]
pub fn in_unit_interval(bits: u32) -> (unit: bool)
    ensures
        unit == is_unit(bits),
{
    bits <= ONE || bits == NEGATIVE_ZERO
}

/// The level nearest to 31 times the number that `bits` denotes.
pub fn quantize(bits: u32) -> (level: u8)
    requires
        is_unit(bits),
    ensures
        level == nearest_level(bits),
        level <= MAX_LEVEL,
{
    proof {
        lemma_fields(bits);
        lemma_level_is_nearest(bits);
        lemma_unit_is_at_most_one(bits);
        lemma2_to64();
    }
    let exponent: u32 = (bits >> 23) & 0xFF;
    let fraction: u32 = bits & 0x7F_FFFF;
    if exponent < 121 {
        proof {
            // Below 1/64 the number is nearer to level 0 than to level 1.
            let p = pow2(scale(bits)) as int;
            if scale(bits) > 30 {
                lemma_pow2_strictly_increases(30, scale(bits));
            }
            lemma_pow2_unfold(scale(bits) + 1);
            lemma_basic_div(62 * significand(bits) + p, 2 * p);
        }
        0
    } else {
        let shift: u64 = (150 - exponent) as u64;
        let weighted: u64 = 62 * (0x80_0000 + fraction as u64);
        proof {
            assert(pow2(shift as nat) <= pow2(29)) by {
                if shift < 29 {
                    lemma_pow2_strictly_increases(shift as nat, 29);
                }
            }
            lemma_u64_shl_is_mul(1, shift);
            lemma_u64_shr_is_div((weighted + (1u64 << shift)) as u64, (shift + 1) as u64);
        }
        let rounded: u64 = (weighted + (1u64 << shift)) >> (shift + 1);
        rounded as u8
    }
}

} // verus!
