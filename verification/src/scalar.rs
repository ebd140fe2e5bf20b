//! Scalars as IEEE-754 binary32 bit patterns.
//!
//! Every geometric or visual quantity in this crate (a coordinate, a border
//! radius, a blur diameter, a brightness) is a 32-bit IEEE-754 binary32 value,
//! carried as its bit pattern in a `u32`. This module defines the few facts
//! about the encoding that the rest of the crate relies on:
//!
//! - which patterns encode NaN ([`is_nan_bits`]) and which carry a sign
//!   ([`sign_bit_set`]),
//! - the encoded ordering ([`le_bits`]): for two non-NaN patterns, comparing
//!   the order keys is exactly the `<=` of the encoded values, because the
//!   encoding is lexicographic on (sign, magnitude) and both zeros have
//!   magnitude zero,
//! - sanitizing a configured value to a non-negative one ([`sanitize`]), and
//!   clamping it to a reference length ([`clamp_to`]); on sign-cleared,
//!   non-NaN patterns the plain `u32` order coincides with the encoded order,
//!   which is what makes the clamp expressible without real arithmetic.

use vstd::prelude::*;

verus! {

/// True when `a` encodes a NaN: exponent field all ones, fraction non-zero.
pub open spec fn is_nan_bits(a: u32) -> bool {
    a & 0x7f80_0000 == 0x7f80_0000 && a & 0x007f_ffff != 0
}

/// True when `a` carries the sign bit, i.e. encodes a negative value or a
/// negative zero.
pub open spec fn sign_bit_set(a: u32) -> bool {
    a & 0x8000_0000 != 0
}

/// The magnitude field of `a`: the pattern with the sign bit cleared.
pub open spec fn magnitude_bits(a: u32) -> u32 {
    a & 0x7fff_ffff
}

/// The position of the encoded value on the number line, as an integer key:
/// negative patterns sort below positive ones by their negated magnitude, and
/// the two zero encodings share the key 0.
pub open spec fn order_key(a: u32) -> int {
    if sign_bit_set(a) {
        -(magnitude_bits(a) as int)
    } else {
        magnitude_bits(a) as int
    }
}

/// The `<=` of the encoded values: false whenever either side is NaN,
/// otherwise the order of the keys.
pub open spec fn le_bits(a: u32, b: u32) -> bool {
    &&& !is_nan_bits(a)
    &&& !is_nan_bits(b)
    &&& order_key(a) <= order_key(b)
}

/// A configured value made usable as a radius: NaN and anything negative
/// (sign bit set) fall back to zero, everything else is kept as it is.
pub open spec fn spec_sanitize(a: u32) -> u32 {
    if is_nan_bits(a) || sign_bit_set(a) {
        0
    } else {
        a
    }
}

/// A configured value clamped to the interval from zero to the sanitized
/// reference length: both sides are sanitized first, and on sign-cleared,
/// non-NaN patterns the `u32` order is the encoded order.
pub open spec fn spec_clamp_to(a: u32, limit: u32) -> u32 {
    let v = spec_sanitize(a);
    let l = spec_sanitize(limit);
    if v > l {
        l
    } else {
        v
    }
}

/// Compares two patterns as the values they encode; NaN compares below
/// nothing.
pub fn scalar_le(a: u32, b: u32) -> (r: bool)
    ensures
        r == le_bits(a, b),
{
    let a_nan = (a & 0x7f80_0000 == 0x7f80_0000) && (a & 0x007f_ffff != 0);
    let b_nan = (b & 0x7f80_0000 == 0x7f80_0000) && (b & 0x007f_ffff != 0);
    if a_nan || b_nan {
        return false;
    }
    let ka: i64 = if a & 0x8000_0000 != 0 {
        -((a & 0x7fff_ffff) as i64)
    } else {
        (a & 0x7fff_ffff) as i64
    };
    let kb: i64 = if b & 0x8000_0000 != 0 {
        -((b & 0x7fff_ffff) as i64)
    } else {
        (b & 0x7fff_ffff) as i64
    };
    ka <= kb
}

/// Replaces NaN and sign-carrying patterns by zero.
pub fn sanitize(a: u32) -> (r: u32)
    ensures
        r == spec_sanitize(a),
{
    if (a & 0x7f80_0000 == 0x7f80_0000 && a & 0x007f_ffff != 0) || a & 0x8000_0000 != 0 {
        0
    } else {
        a
    }
}

/// Clamps a configured value to the interval from zero to the sanitized
/// reference length.
pub fn clamp_to(a: u32, limit: u32) -> (r: u32)
    ensures
        r == spec_clamp_to(a, limit),
{
    let v = sanitize(a);
    let l = sanitize(limit);
    if v > l {
        l
    } else {
        v
    }
}

/// The zero pattern encodes positive zero: not NaN, sign-cleared, magnitude
/// zero, and a fixed point of sanitizing.
pub proof fn lemma_zero_bits()
    ensures
        !is_nan_bits(0),
        !sign_bit_set(0),
        magnitude_bits(0) == 0,
        order_key(0) == 0,
        spec_sanitize(0) == 0,
{
    assert(0u32 & 0x7f80_0000 != 0x7f80_0000) by (bit_vector);
    assert(0u32 & 0x8000_0000 == 0) by (bit_vector);
    assert(0u32 & 0x7fff_ffff == 0) by (bit_vector);
}

/// Sanitizing is idempotent: its result is never NaN and never carries a
/// sign, so sanitizing it again changes nothing.
pub proof fn lemma_sanitize_idempotent(a: u32)
    ensures
        spec_sanitize(spec_sanitize(a)) == spec_sanitize(a),
{
    assert(0u32 & 0x7f80_0000 != 0x7f80_0000) by (bit_vector);
    assert(0u32 & 0x8000_0000 == 0) by (bit_vector);
}

/// What sanitizing establishes: the result is non-NaN, sign-cleared, and its
/// order key is the plain `u32` value.
pub proof fn lemma_sanitize_non_negative(a: u32)
    ensures
        !is_nan_bits(spec_sanitize(a)),
        !sign_bit_set(spec_sanitize(a)),
        order_key(spec_sanitize(a)) == spec_sanitize(a) as int,
{
    assert(0u32 & 0x7f80_0000 != 0x7f80_0000) by (bit_vector);
    assert(0u32 & 0x8000_0000 == 0) by (bit_vector);
    let s = spec_sanitize(a);
    assert(s & 0x8000_0000 == 0 ==> s & 0x7fff_ffff == s) by (bit_vector);
}

/// The clamp lands in the interval it names: the result encodes a value
/// between zero and the sanitized reference length.
pub proof fn lemma_clamp_bounds(a: u32, limit: u32)
    ensures
        !is_nan_bits(spec_clamp_to(a, limit)),
        !sign_bit_set(spec_clamp_to(a, limit)),
        le_bits(0, spec_clamp_to(a, limit)),
        le_bits(spec_clamp_to(a, limit), spec_sanitize(limit)),
{
    lemma_sanitize_non_negative(a);
    lemma_sanitize_non_negative(limit);
    lemma_sanitize_non_negative(0);
}

/// Clamping is idempotent: a value already clamped to a reference length is
/// left unchanged by clamping it to the same length again.
pub proof fn lemma_clamp_idempotent(a: u32, limit: u32)
    ensures
        spec_clamp_to(spec_clamp_to(a, limit), limit) == spec_clamp_to(a, limit),
{
    lemma_sanitize_non_negative(a);
    lemma_sanitize_non_negative(limit);
    lemma_sanitize_idempotent(a);
    lemma_sanitize_idempotent(limit);
}

} // verus!
