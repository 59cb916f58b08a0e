//! Exact operations on IEEE 754 binary64 values carried as bit patterns.
//!
//! The engine stores a float as the `u64` returned by `to_bits`, so every
//! operation here is integer logic: equality and ordering follow the IEEE
//! comparison rules (NaN compares false, the two zeros are equal), negation
//! flips the sign bit, and rounding moves a finite value to the nearest
//! integer, half away from zero, exactly as the hardware operation does.

use vstd::prelude::*;

verus! {

/// The sign bit of a binary64 pattern.
pub const F64_SIGN_MASK: u64 = 0x8000_0000_0000_0000;

/// The exponent field of a binary64 pattern.
pub const F64_EXP_MASK: u64 = 0x7ff0_0000_0000_0000;

/// The pattern of positive one.
pub const F64_ONE: u64 = 0x3ff0_0000_0000_0000;

/// The magnitude of a pattern: everything but the sign bit.
pub open spec fn f64_mag(bits: u64) -> u64 {
    bits & 0x7fff_ffff_ffff_ffff
}

/// Whether a pattern is a NaN.
pub open spec fn spec_f64_is_nan(bits: u64) -> bool {
    f64_mag(bits) > F64_EXP_MASK
}

/// IEEE equality on patterns: NaN equals nothing, the two zeros are equal,
/// and otherwise equal patterns are equal values.
pub open spec fn spec_f64_eq(a: u64, b: u64) -> bool {
    if spec_f64_is_nan(a) || spec_f64_is_nan(b) {
        false
    } else if f64_mag(a) == 0 && f64_mag(b) == 0 {
        true
    } else {
        a == b
    }
}

/// IEEE strict order on patterns: false when either side is a NaN; negative
/// values below positive ones; within a sign, magnitude order (reversed on
/// the negative side); the two zeros equal.
pub open spec fn spec_f64_lt(a: u64, b: u64) -> bool {
    if spec_f64_is_nan(a) || spec_f64_is_nan(b) {
        false
    } else if f64_mag(a) == 0 && f64_mag(b) == 0 {
        false
    } else if a & F64_SIGN_MASK != b & F64_SIGN_MASK {
        a & F64_SIGN_MASK == F64_SIGN_MASK
    } else if a & F64_SIGN_MASK == 0 {
        f64_mag(a) < f64_mag(b)
    } else {
        f64_mag(a) > f64_mag(b)
    }
}

/// The pattern of the negated value.
pub open spec fn spec_f64_neg(bits: u64) -> u64 {
    bits ^ F64_SIGN_MASK
}

/// The pattern of the value rounded to the nearest integer, half away from
/// zero. NaN and the infinities come back unchanged.
pub open spec fn spec_f64_round(bits: u64) -> u64 {
    let sign = bits & F64_SIGN_MASK;
    let mag = f64_mag(bits);
    if mag >= F64_EXP_MASK {
        bits
    } else {
        let e = mag >> 52;
        if e >= 1075 {
            bits
        } else if e < 1022 {
            sign
        } else if e == 1022 {
            sign | F64_ONE
        } else {
            let shift = 1075 - e;
            let half = 1u64 << ((shift - 1) as u64);
            let lifted = (mag + half) as u64;
            let cleared = lifted & !(((1u64 << (shift as u64)) - 1) as u64);
            sign | cleared
        }
    }
}

/// Whether a pattern is a NaN.
pub fn f64_is_nan(bits: u64) -> (r: bool)
    ensures
        r == spec_f64_is_nan(bits),
{
    bits & 0x7fff_ffff_ffff_ffff > F64_EXP_MASK
}

/// IEEE equality on patterns.
pub fn f64_eq(a: u64, b: u64) -> (r: bool)
    ensures
        r == spec_f64_eq(a, b),
{
    if f64_is_nan(a) || f64_is_nan(b) {
        false
    } else if a & 0x7fff_ffff_ffff_ffff == 0 && b & 0x7fff_ffff_ffff_ffff == 0 {
        true
    } else {
        a == b
    }
}

/// IEEE strict order on patterns.
pub fn f64_lt(a: u64, b: u64) -> (r: bool)
    ensures
        r == spec_f64_lt(a, b),
{
    if f64_is_nan(a) || f64_is_nan(b) {
        false
    } else if a & 0x7fff_ffff_ffff_ffff == 0 && b & 0x7fff_ffff_ffff_ffff == 0 {
        false
    } else if a & F64_SIGN_MASK != b & F64_SIGN_MASK {
        a & F64_SIGN_MASK == F64_SIGN_MASK
    } else if a & F64_SIGN_MASK == 0 {
        (a & 0x7fff_ffff_ffff_ffff) < (b & 0x7fff_ffff_ffff_ffff)
    } else {
        (a & 0x7fff_ffff_ffff_ffff) > (b & 0x7fff_ffff_ffff_ffff)
    }
}

/// The pattern of the negated value.
pub fn f64_neg(bits: u64) -> (r: u64)
    ensures
        r == spec_f64_neg(bits),
{
    bits ^ F64_SIGN_MASK
}

/// Rounds a pattern to the nearest integer, half away from zero.
pub fn f64_round(bits: u64) -> (r: u64)
    ensures
        r == spec_f64_round(bits),
{
    let sign = bits & F64_SIGN_MASK;
    let mag = bits & 0x7fff_ffff_ffff_ffff;
    assert(mag == f64_mag(bits));
    if mag >= F64_EXP_MASK {
        return bits;
    }
    let e = mag >> 52;
    assert(e < 0x7ff) by (bit_vector)
        requires
            mag < 0x7ff0_0000_0000_0000 && e == mag >> 52,
    ;
    if e >= 1075 {
        bits
    } else if e < 1022 {
        sign
    } else if e == 1022 {
        sign | F64_ONE
    } else {
        let shift = 1075 - e;
        assert(1 <= shift && shift <= 52);
        let half = 1u64 << (shift - 1);
        assert(half <= 0x8_0000_0000_0000) by (bit_vector)
            requires
                1 <= shift && shift <= 52 && half == 1u64 << (shift - 1) as u64,
        ;
        let lifted = mag + half;
        assert((1u64 << shift) >= 1) by (bit_vector)
            requires
                1 <= shift && shift <= 52,
        ;
        let low = (1u64 << shift) - 1;
        let cleared = lifted & !low;
        assert(half == 1u64 << ((shift - 1) as u64));
        assert(low == ((1u64 << (shift as u64)) - 1) as u64);
        sign | cleared
    }
}

} // verus!
