//! Conversions from IEEE-754 bit patterns to integers.
//!
//! A finite binary number is a sign, a significand and a scale: its
//! magnitude is `significand * 2^scale`. The conversions here are stated
//! over that reading of the bits.

use vstd::prelude::*;
use vstd::arithmetic::power2::{
    lemma2_to64,
    lemma2_to64_rest,
    lemma_pow2_pos,
    lemma_pow2_strictly_increases,
    lemma_pow2_unfold,
    pow2,
};

verus! {

/// The integer part of `significand * 2^scale`.
pub open spec fn magnitude_floor(significand: int, scale: int) -> int {
    if scale >= 0 {
        significand * pow2(scale as nat)
    } else {
        significand / (pow2((-scale) as nat) as int)
    }
}

/// The number with the given sign, significand and scale, rounded toward
/// zero to an integer.
pub open spec fn truncated(negative: bool, significand: int, scale: int) -> int {
    if negative {
        -magnitude_floor(significand, scale)
    } else {
        magnitude_floor(significand, scale)
    }
}

/// `x` where it lies between `min` and `max`, else the nearer of the two.
pub open spec fn saturated(x: int, min: int, max: int) -> int {
    if x >= max {
        max
    } else if x <= min {
        min
    } else {
        x
    }
}

/// Whether the number with the given sign, significand and scale is at
/// least the integer `bound`.
pub open spec fn at_least(negative: bool, significand: int, scale: int, bound: int) -> bool {
    let signed = if negative {
        -significand
    } else {
        significand
    };
    if scale >= 0 {
        signed * pow2(scale as nat) >= bound
    } else {
        signed >= bound * pow2((-scale) as nat)
    }
}

/// Whether the number with the given sign, significand and scale is at
/// most the integer `bound`.
pub open spec fn at_most(negative: bool, significand: int, scale: int, bound: int) -> bool {
    let signed = if negative {
        -significand
    } else {
        significand
    };
    if scale >= 0 {
        signed * pow2(scale as nat) <= bound
    } else {
        signed <= bound * pow2((-scale) as nat)
    }
}

/// Saturation: a finite number converts to `max` where it is at least
/// `max`, to `min` where it is at most `min`, and else to itself rounded
/// toward zero.
pub proof fn lemma_saturation(negative: bool, significand: int, scale: int, min: int, max: int)
    requires
        significand >= 0,
        min < 0 < max,
    ensures
        saturated(truncated(negative, significand, scale), min, max) == if at_least(
            negative,
            significand,
            scale,
            max,
        ) {
            max
        } else if at_most(negative, significand, scale, min) {
            min
        } else {
            truncated(negative, significand, scale)
        },
{
    if scale >= 0 {
        let p = pow2(scale as nat) as int;
        assert((-significand) * p == -(significand * p)) by (nonlinear_arith);
    } else {
        let p = pow2((-scale) as nat) as int;
        lemma_pow2_pos((-scale) as nat);
        let q = significand / p;
        assert(q * p <= significand < (q + 1) * p && q >= 0) by (nonlinear_arith)
            requires
                significand >= 0,
                p > 0,
                q == significand / p,
        ;
        assert(q >= max <==> significand >= max * p) by (nonlinear_arith)
            requires
                q * p <= significand < (q + 1) * p,
                p > 0,
        ;
        assert(-q <= min <==> -significand <= min * p) by (nonlinear_arith)
            requires
                q * p <= significand < (q + 1) * p,
                p > 0,
        ;
        assert(max * p > 0 && min * p < 0) by (nonlinear_arith)
            requires
                p > 0,
                min < 0 < max,
        ;
    }
}

/// Whether the sign bit of a binary32 pattern is set.
pub open spec fn f32_negative(bits: u32) -> bool {
    bits >= 0x8000_0000
}

/// The exponent field of a binary32 pattern.
pub open spec fn f32_exponent(bits: u32) -> int {
    (bits as int / 0x80_0000) % 0x100
}

/// The fraction field of a binary32 pattern.
pub open spec fn f32_fraction(bits: u32) -> int {
    bits as int % 0x80_0000
}

pub open spec fn f32_is_nan(bits: u32) -> bool {
    f32_exponent(bits) == 0xff && f32_fraction(bits) != 0
}

pub open spec fn f32_is_infinite(bits: u32) -> bool {
    f32_exponent(bits) == 0xff && f32_fraction(bits) == 0
}

/// The significand of a finite binary32 number: the fraction, with the
/// hidden bit where the number is normal.
pub open spec fn f32_significand(bits: u32) -> int {
    if f32_exponent(bits) == 0 {
        f32_fraction(bits)
    } else {
        f32_fraction(bits) + 0x80_0000
    }
}

/// The scale of a finite binary32 number.
pub open spec fn f32_scale(bits: u32) -> int {
    if f32_exponent(bits) == 0 {
        -149
    } else {
        f32_exponent(bits) - 150
    }
}

/// Whether the sign bit of a binary64 pattern is set.
pub open spec fn f64_negative(bits: u64) -> bool {
    bits >= 0x8000_0000_0000_0000
}

/// The exponent field of a binary64 pattern.
pub open spec fn f64_exponent(bits: u64) -> int {
    (bits as int / 0x10_0000_0000_0000) % 0x800
}

/// The fraction field of a binary64 pattern.
pub open spec fn f64_fraction(bits: u64) -> int {
    bits as int % 0x10_0000_0000_0000
}

pub open spec fn f64_is_nan(bits: u64) -> bool {
    f64_exponent(bits) == 0x7ff && f64_fraction(bits) != 0
}

pub open spec fn f64_is_infinite(bits: u64) -> bool {
    f64_exponent(bits) == 0x7ff && f64_fraction(bits) == 0
}

/// The significand of a finite binary64 number.
pub open spec fn f64_significand(bits: u64) -> int {
    if f64_exponent(bits) == 0 {
        f64_fraction(bits)
    } else {
        f64_fraction(bits) + 0x10_0000_0000_0000
    }
}

/// The scale of a finite binary64 number.
pub open spec fn f64_scale(bits: u64) -> int {
    if f64_exponent(bits) == 0 {
        -1074
    } else {
        f64_exponent(bits) - 1075
    }
}

/// The binary32 number with pattern `bits` as an integer between `min` and
/// `max`: 0 for a NaN, the bound on its side for an infinity, else the
/// number rounded toward zero and brought into the range.
pub open spec fn f32_to_integer(bits: u32, min: int, max: int) -> int {
    if f32_is_nan(bits) {
        0
    } else if f32_is_infinite(bits) {
        if f32_negative(bits) {
            min
        } else {
            max
        }
    } else {
        saturated(truncated(f32_negative(bits), f32_significand(bits), f32_scale(bits)), min, max)
    }
}

/// The binary64 number with pattern `bits` as an integer between `min` and
/// `max`, by the rules of [`f32_to_integer`].
pub open spec fn f64_to_integer(bits: u64, min: int, max: int) -> int {
    if f64_is_nan(bits) {
        0
    } else if f64_is_infinite(bits) {
        if f64_negative(bits) {
            min
        } else {
            max
        }
    } else {
        saturated(truncated(f64_negative(bits), f64_significand(bits), f64_scale(bits)), min, max)
    }
}

/// Whether the binary32 number with pattern `bits`, not a NaN, is at least
/// the integer `bound`: positive infinity is, negative infinity is not.
pub open spec fn f32_at_least(bits: u32, bound: int) -> bool {
    if f32_is_infinite(bits) {
        !f32_negative(bits)
    } else {
        at_least(f32_negative(bits), f32_significand(bits), f32_scale(bits), bound)
    }
}

/// Whether the binary32 number with pattern `bits`, not a NaN, is at most
/// the integer `bound`.
pub open spec fn f32_at_most(bits: u32, bound: int) -> bool {
    if f32_is_infinite(bits) {
        f32_negative(bits)
    } else {
        at_most(f32_negative(bits), f32_significand(bits), f32_scale(bits), bound)
    }
}

/// Whether the binary64 number with pattern `bits`, not a NaN, is at least
/// the integer `bound`.
pub open spec fn f64_at_least(bits: u64, bound: int) -> bool {
    if f64_is_infinite(bits) {
        !f64_negative(bits)
    } else {
        at_least(f64_negative(bits), f64_significand(bits), f64_scale(bits), bound)
    }
}

/// Whether the binary64 number with pattern `bits`, not a NaN, is at most
/// the integer `bound`.
pub open spec fn f64_at_most(bits: u64, bound: int) -> bool {
    if f64_is_infinite(bits) {
        f64_negative(bits)
    } else {
        at_most(f64_negative(bits), f64_significand(bits), f64_scale(bits), bound)
    }
}

/// The conversion of a float to an integer between `min` and `max`: 0 for
/// a NaN, `max` for a number that is at least `max`, `min` for one that is
/// at most `min`, and every other number rounded toward zero.
pub proof fn lemma_float_conversion(bits: u32, min: int, max: int)
    requires
        min < 0 < max,
    ensures
        f32_to_integer(bits, min, max) == if f32_is_nan(bits) {
            0
        } else if f32_at_least(bits, max) {
            max
        } else if f32_at_most(bits, min) {
            min
        } else {
            truncated(f32_negative(bits), f32_significand(bits), f32_scale(bits))
        },
{
    lemma_saturation(f32_negative(bits), f32_significand(bits), f32_scale(bits), min, max);
}

/// The conversion of a double to an integer between `min` and `max`, by
/// the same rule.
pub proof fn lemma_double_conversion(bits: u64, min: int, max: int)
    requires
        min < 0 < max,
    ensures
        f64_to_integer(bits, min, max) == if f64_is_nan(bits) {
            0
        } else if f64_at_least(bits, max) {
            max
        } else if f64_at_most(bits, min) {
            min
        } else {
            truncated(f64_negative(bits), f64_significand(bits), f64_scale(bits))
        },
{
    lemma_saturation(f64_negative(bits), f64_significand(bits), f64_scale(bits), min, max);
}

/// 2 to the power `k`.
fn power_of_two(k: u32) -> (r: u64)
    requires
        k <= 63,
    ensures
        r == pow2(k as nat),
        r >= 1,
{
    let mut r: u64 = 1;
    let mut i: u32 = 0;
    proof {
        lemma2_to64();
    }
    while i < k
        invariant
            i <= k <= 63,
            r == pow2(i as nat),
            r >= 1,
        decreases k - i,
    {
        proof {
            lemma_pow2_unfold((i + 1) as nat);
            lemma_pow2_strictly_increases((i + 1) as nat, 64);
            lemma2_to64_rest();
        }
        r = r * 2;
        i += 1;
    }
    r
}

/// A finite binary number as a 64-bit integer: rounded toward zero, and the
/// nearest 64-bit integer where that lies outside the range.
pub fn binary_to_long(negative: bool, significand: u64, scale: i32) -> (r: i64)
    requires
        significand < 0x20_0000_0000_0000,
    ensures
        r == saturated(
            truncated(negative, significand as int, scale as int),
            i64::MIN as int,
            i64::MAX as int,
        ),
{
    proof {
        lemma2_to64();
        lemma2_to64_rest();
    }
    let magnitude: u64 = if significand == 0 {
        proof {
            if scale >= 0 {
                assert(0 * pow2(scale as nat) == 0);
            } else {
                lemma_pow2_pos((-scale) as nat);
                assert(0int / (pow2((-scale) as nat) as int) == 0);
            }
        }
        0
    } else if scale >= 0 {
        if scale >= 63 {
            proof {
                if scale > 63 {
                    lemma_pow2_strictly_increases(63, scale as nat);
                }
                assert(significand * pow2(scale as nat) >= pow2(63)) by (nonlinear_arith)
                    requires
                        significand >= 1,
                        pow2(scale as nat) >= pow2(63),
                ;
            }
            return if negative {
                i64::MIN
            } else {
                i64::MAX
            };
        }
        let p = power_of_two(scale as u32);
        assert(significand * p < 0x20_0000_0000_0000 * 0x8000_0000_0000_0000) by (nonlinear_arith)
            requires
                significand < 0x20_0000_0000_0000,
                p < 0x8000_0000_0000_0000,
        ;
        let product: u128 = significand as u128 * p as u128;
        if product >= 0x8000_0000_0000_0000 {
            return if negative {
                i64::MIN
            } else {
                i64::MAX
            };
        }
        product as u64
    } else {
        if scale <= -64 {
            proof {
                if scale < -64 {
                    lemma_pow2_strictly_increases(64, (-scale) as nat);
                }
                let p = pow2((-scale) as nat) as int;
                assert(significand as int / p == 0) by (nonlinear_arith)
                    requires
                        0 <= significand < p,
                ;
            }
            0
        } else {
            let p = power_of_two((-scale) as u32);
            significand / p
        }
    };
    if negative {
        -(magnitude as i64)
    } else {
        magnitude as i64
    }
}

/// float to long.
pub fn f2l(bits: u32) -> (r: i64)
    ensures
        r == f32_to_integer(bits, i64::MIN as int, i64::MAX as int),
{
    let negative = bits >= 0x8000_0000;
    let exponent: u32 = (bits / 0x80_0000) % 0x100;
    let fraction: u32 = bits % 0x80_0000;
    if exponent == 0xff {
        if fraction != 0 {
            0
        } else if negative {
            i64::MIN
        } else {
            i64::MAX
        }
    } else if exponent == 0 {
        binary_to_long(negative, fraction as u64, -149)
    } else {
        binary_to_long(negative, fraction as u64 + 0x80_0000, exponent as i32 - 150)
    }
}

/// float to int.
pub fn f2i(bits: u32) -> (r: i32)
    ensures
        r == f32_to_integer(bits, i32::MIN as int, i32::MAX as int),
{
    let wide = f2l(bits);
    if wide >= i32::MAX as i64 {
        i32::MAX
    } else if wide <= i32::MIN as i64 {
        i32::MIN
    } else {
        wide as i32
    }
}

/// double to long.
pub fn d2l(bits: u64) -> (r: i64)
    ensures
        r == f64_to_integer(bits, i64::MIN as int, i64::MAX as int),
{
    let negative = bits >= 0x8000_0000_0000_0000;
    let exponent: u64 = (bits / 0x10_0000_0000_0000) % 0x800;
    let fraction: u64 = bits % 0x10_0000_0000_0000;
    if exponent == 0x7ff {
        if fraction != 0 {
            0
        } else if negative {
            i64::MIN
        } else {
            i64::MAX
        }
    } else if exponent == 0 {
        binary_to_long(negative, fraction, -1074)
    } else {
        binary_to_long(negative, fraction + 0x10_0000_0000_0000, exponent as i32 - 1075)
    }
}

/// double to int.
pub fn d2i(bits: u64) -> (r: i32)
    ensures
        r == f64_to_integer(bits, i32::MIN as int, i32::MAX as int),
{
    let wide = d2l(bits);
    if wide >= i32::MAX as i64 {
        i32::MAX
    } else if wide <= i32::MIN as i64 {
        i32::MIN
    } else {
        wide as i32
    }
}

/// The pattern of a binary32 number with the sign changed.
pub open spec fn f32_negated(bits: u32) -> u32 {
    if bits >= 0x8000_0000 {
        (bits - 0x8000_0000) as u32
    } else {
        (bits + 0x8000_0000) as u32
    }
}

/// The pattern of a binary64 number with the sign changed.
pub open spec fn f64_negated(bits: u64) -> u64 {
    if bits >= 0x8000_0000_0000_0000 {
        (bits - 0x8000_0000_0000_0000) as u64
    } else {
        (bits + 0x8000_0000_0000_0000) as u64
    }
}

/// Negation of a float: the sign bit changes, NaN or not.
pub fn fneg(bits: u32) -> (r: u32)
    ensures
        r == f32_negated(bits),
{
    if bits >= 0x8000_0000 {
        bits - 0x8000_0000
    } else {
        bits + 0x8000_0000
    }
}

/// Negation of a double: the sign bit changes, NaN or not.
pub fn dneg(bits: u64) -> (r: u64)
    ensures
        r == f64_negated(bits),
{
    if bits >= 0x8000_0000_0000_0000 {
        bits - 0x8000_0000_0000_0000
    } else {
        bits + 0x8000_0000_0000_0000
    }
}

} // verus!
