//! Bit-level arithmetic on IEEE 754 encodings.
//!
//! Elevation samples travel through the crate as raw bit patterns: `u64` for
//! double precision, `u32` for single precision.  Because non-negative IEEE
//! patterns order exactly as the values they encode, clamping a sample into
//! the unit interval is integer comparison, and narrowing a clamped sample to
//! single precision — the texture's storage format — is integer shifting and
//! round-to-nearest-even, all verified here.

use vstd::prelude::*;

verus! {

use vstd::arithmetic::power2::pow2;

/// Bit pattern of `1.0` in double precision.
pub const F64_ONE_BITS: u64 = 0x3FF0_0000_0000_0000;

/// Sign bit of a double-precision pattern: at or above it the encoded value
/// is negative (or a negative NaN).
pub const F64_SIGN_BIT: u64 = 0x8000_0000_0000_0000;

/// Mask of the 52 mantissa bits of a double-precision pattern.
pub const F64_MANTISSA_MASK: u64 = 0x000F_FFFF_FFFF_FFFF;

/// The implicit leading mantissa bit of a normal double: two to the 52nd.
pub const F64_IMPLICIT_BIT: u64 = 0x0010_0000_0000_0000;

/// Bit pattern of `1.0` in single precision.
pub const F32_ONE_BITS: u32 = 0x3F80_0000;

/// Clamps a double-precision pattern into the unit interval.  Patterns with
/// the sign bit set encode negative values (or negative NaNs) and clamp to
/// zero; patterns above that of `1.0` encode values beyond one (or positive
/// infinities and NaNs) and clamp to one.  The remaining patterns already
/// encode values in `[0, 1]`, because non-negative patterns order as their
/// values do.
pub open spec fn clamp_unit_bits(b: u64) -> u64 {
    if b >= F64_SIGN_BIT {
        0u64
    } else if b > F64_ONE_BITS {
        F64_ONE_BITS
    } else {
        b
    }
}

/// Executable clamp of a double-precision pattern into the unit interval.
pub fn clamp_unit_sample(b: u64) -> (r: u64)
    ensures
        r == clamp_unit_bits(b),
        r <= F64_ONE_BITS,
{
    if b >= F64_SIGN_BIT {
        0u64
    } else if b > F64_ONE_BITS {
        F64_ONE_BITS
    } else {
        b
    }
}

/// Shifts `x` right by `shift` and rounds the dropped bits to nearest, ties
/// to even: the quotient is incremented when the remainder exceeds half the
/// divisor, or equals it while the quotient is odd.
pub open spec fn rne_shift(x: u64, shift: u64) -> u64
    recommends
        1 <= shift <= 63,
{
    let q = x >> shift;
    let rest = x & (((1u64 << shift) - 1) as u64);
    let half = 1u64 << ((shift - 1) as u64);
    if rest > half || (rest == half && q & 1 == 1) {
        (q + 1) as u64
    } else {
        q
    }
}

/// Executable round-to-nearest-even shift.
pub fn rounded_shift(x: u64, shift: u64) -> (r: u64)
    requires
        1 <= shift <= 63,
    ensures
        r == rne_shift(x, shift),
        r <= (x >> shift) + 1,
        x == 0 ==> r == 0,
{
    assert((x >> shift) <= 0x7FFF_FFFF_FFFF_FFFFu64 && (1u64 << shift) >= 1u64 && (x == 0 ==> (x
        >> shift) == 0 && (x & (((1u64 << shift) - 1) as u64)) == 0 && (1u64 << ((shift
        - 1) as u64)) >= 1)) by (bit_vector)
        requires
            1 <= shift <= 63,
    ;
    let q = x >> shift;
    let rest = x & ((1u64 << shift) - 1);
    let half = 1u64 << (shift - 1);
    if rest > half || (rest == half && q & 1 == 1) {
        q + 1
    } else {
        q
    }
}

/// Law: the rounded shift really rounds to the nearest quotient, ties to
/// even — the result times the divisor lies within half a divisor of `x`,
/// and an exact half-divisor remainder resolves to an even result.
pub proof fn lemma_rne_shift_is_nearest(x: u64, shift: u64)
    requires
        1 <= shift <= 63,
    ensures
        ({
            let p = pow2(shift as nat) as int;
            let r = rne_shift(x, shift) as int;
            &&& r * p <= x as int + p / 2
            &&& x as int <= r * p + p / 2
            &&& x as int % p == p / 2 ==> r % 2 == 0
        }),
{
    let p = pow2(shift as nat) as int;
    let half = pow2((shift - 1) as nat) as int;
    let q = (x >> shift) as int;
    let rest = (x & (((1u64 << shift) - 1) as u64)) as int;
    let xq = x >> shift;
    vstd::bits::lemma_u64_shr_is_div(x, shift);
    vstd::bits::lemma_u64_pow2_no_overflow(shift as nat);
    vstd::bits::lemma_u64_shl_is_mul(1u64, shift);
    vstd::arithmetic::power2::lemma_pow2_unfold(shift as nat);
    vstd::arithmetic::power2::lemma_pow2_pos((shift - 1) as nat);
    vstd::bits::lemma_u64_shl_is_mul(1u64, (shift - 1) as u64);
    assert((((1u64 << shift) - 1) as u64) == vstd::bits::low_bits_mask(shift as nat) as u64);
    vstd::bits::lemma_u64_low_bits_mask_is_mod(x, shift as nat);
    assert(p == 2 * half);
    assert(((1u64 << ((shift - 1) as u64)) as int) == half);
    assert(q == x as int / p);
    assert(rest == x as int % p);
    vstd::arithmetic::div_mod::lemma_fundamental_div_mod(x as int, p);
    vstd::arithmetic::div_mod::lemma_mod_bound(x as int, p);
    assert(x as int == q * p + rest);
    assert(0 <= rest < p);
    assert((q + 1) * p == q * p + p) by (nonlinear_arith);
    assert((xq & 1) == xq % 2) by (bit_vector);
    assert(xq <= 0x7FFF_FFFF_FFFF_FFFFu64) by (bit_vector)
        requires
            xq == x >> shift && 1 <= shift <= 63,
    ;
    let r = rne_shift(x, shift) as int;
    if rest > half || (rest == half && xq % 2 == 1) {
        assert(r == q + 1);
        assert(rest >= half);
    } else {
        assert(r == q);
        assert(rest <= half);
    }
    assert(p / 2 == half);
}

/// Narrows a clamped unit-interval double-precision pattern to the single
/// precision pattern of the same value, rounded to nearest with ties to even
/// — the rounding the hardware conversion performs.
///
/// With the sign always clear, a double splits into biased exponent `e` and
/// 52 mantissa bits `m`.  Three ranges arise:
/// - `e >= 897` (value at least two to the −126, the smallest normal
///   single): the single's biased exponent is `e - 896` and its mantissa is
///   `m` rounded from 52 to 23 bits; a mantissa that rounds up to overflow
///   carries into the exponent, which plain addition of the rounded mantissa
///   performs.
/// - `873 <= e <= 896`: the value falls in the single's subnormal range,
///   whose unit is two to the −149; restoring the implicit bit and shifting
///   by `926 - e` counts those units, rounded to nearest even.  A carry out
///   again lands on the smallest normal single.
/// - `e <= 872` (including the zero pattern and the double's subnormals):
///   the value is at most half a subnormal unit and rounds to zero, ties to
///   the even zero.
pub open spec fn narrow_unit_bits(b: u64) -> u32
    recommends
        b <= F64_ONE_BITS,
{
    let e = b >> 52;
    let m = b & F64_MANTISSA_MASK;
    if e >= 897 {
        ((((e - 896) as u64) << 23) + rne_shift(m, 29)) as u32
    } else if e >= 873 {
        rne_shift((m + F64_IMPLICIT_BIT) as u64, (926 - e) as u64) as u32
    } else {
        0u32
    }
}

/// Executable narrowing of a clamped unit-interval double-precision pattern
/// to single precision; the result never exceeds the pattern of `1.0`.
pub fn narrow_unit_sample(b: u64) -> (r: u32)
    requires
        b <= F64_ONE_BITS,
    ensures
        r == narrow_unit_bits(b),
        r <= F32_ONE_BITS,
{
    let e = b >> 52;
    let m = b & F64_MANTISSA_MASK;
    assert(e <= 1023 && m <= 0x000F_FFFF_FFFF_FFFFu64 && (e == 1023 ==> m == 0)) by (bit_vector)
        requires
            b <= 0x3FF0_0000_0000_0000u64 && e == (b >> 52) && m == (b
                & 0x000F_FFFF_FFFF_FFFFu64),
    ;
    if e >= 897 {
        let q = rounded_shift(m, 29);
        assert(q <= (m >> 29u64) + 1);
        assert((((e - 896) as u64) << 23u64) + q <= 0x3F80_0000u64 && ((((e - 896) as u64)
            << 23u64) + q) as u32 == (((e - 896) as u64) << 23u64) + q) by (bit_vector)
            requires
                897 <= e <= 1023,
                m <= 0x000F_FFFF_FFFF_FFFFu64,
                q <= (m >> 29) + 1,
                e == 1023 ==> m == 0,
                m == 0 ==> q == 0,
        ;
        (((e - 896) << 23) + q) as u32
    } else if e >= 873 {
        let q = rounded_shift(m + F64_IMPLICIT_BIT, 926 - e);
        assert(q <= (((m + 0x0010_0000_0000_0000u64) as u64) >> ((926 - e) as u64)) + 1);
        assert(q <= 0x80_0000u64 && (q as u32) == q) by (bit_vector)
            requires
                873 <= e <= 896,
                m <= 0x000F_FFFF_FFFF_FFFFu64,
                q <= (((m + 0x0010_0000_0000_0000u64) as u64) >> ((926 - e) as u64)) + 1,
        ;
        q as u32
    } else {
        0u32
    }
}

} // verus!
