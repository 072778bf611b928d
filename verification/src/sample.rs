//! Conversion of one sample: a signed 16-bit integer `s` becomes the
//! single-precision float nearest to `s / 32767`, given as its bit pattern.
//!
//! A non-zero magnitude `m` is doubled `k` times until it lies in
//! `[32767, 65534)`, so that `m / 32767 = (n / 32767) * 2^-k` with the
//! quotient `n / 32767` in `[1, 2)`. The 24-bit significand is that quotient
//! times `2^23`, rounded to the nearest integer; since 32767 is odd no
//! quotient lies half-way between two significands, so no tie rule is needed.

use vstd::prelude::*;

verus! {

/// The sample value that converts to exactly 1.0.
pub const FULL_SCALE: u32 = 32767;

/// The weight of the lowest exponent bit, and of the implicit leading
/// significand bit.
pub const HIDDEN_BIT: u32 = 0x80_0000;

/// The sign bit of a single-precision pattern.
pub const SIGN_BIT: u32 = 0x8000_0000;

/// The biased exponent of values in `[1, 2)`.
pub const EXPONENT_BIAS: u32 = 127;

pub open spec fn pow2(k: nat) -> int
    decreases k,
{
    if k == 0 {
        1
    } else {
        2 * pow2((k - 1) as nat)
    }
}

pub open spec fn magnitude(s: int) -> int {
    if s < 0 {
        -s
    } else {
        s
    }
}

/// How many doublings bring a positive magnitude up to at least 32767.
pub open spec fn scale_shift(m: int) -> nat
    decreases 65534 - m,
{
    if 1 <= m < 32767 {
        1 + scale_shift(2 * m)
    } else {
        0
    }
}

/// The magnitude after those doublings.
pub open spec fn normalized(m: int) -> int
    decreases 65534 - m,
{
    if 1 <= m < 32767 {
        normalized(2 * m)
    } else {
        m
    }
}

/// The integer nearest to `n / d`, for positive `d`; a tie goes up.
pub open spec fn nearest_quotient(n: int, d: int) -> int {
    (2 * n + d) / (2 * d)
}

/// The 24-bit significand, leading bit included, of the float nearest to
/// `m / 32767`.
pub open spec fn significand(m: int) -> int {
    nearest_quotient(normalized(m) * 0x80_0000, 32767)
}

/// The biased exponent field of the float nearest to `m / 32767`.
pub open spec fn exponent_field(m: int) -> int {
    127 - scale_shift(m)
}

/// The single-precision bit pattern of `s / 32767` rounded to nearest.
/// Zero maps to positive zero.
pub open spec fn sample_bits(s: int) -> int {
    if s == 0 {
        0
    } else {
        let m = magnitude(s);
        let sign: int = if s < 0 { 0x8000_0000 } else { 0 };
        sign + exponent_field(m) * 0x80_0000 + (significand(m) - 0x80_0000)
    }
}

/// Doubling `j` times is enough for any magnitude `m` with
/// `m * 2^j >= 32767`, and the doubled magnitude is `m * 2^k`.
pub proof fn lemma_scale_shift(m: int, j: nat)
    requires
        1 <= m,
        m * pow2(j) >= 32767,
    ensures
        scale_shift(m) <= j,
        normalized(m) == m * pow2(scale_shift(m)),
        normalized(m) >= 32767,
        m <= 32768 ==> normalized(m) < 65534,
    decreases j,
{
    if m < 32767 {
        if j == 0 {
            assert(pow2(0) == 1);
            assert(m * pow2(0) == m) by (nonlinear_arith)
                requires
                    pow2(0) == 1,
            ;
        } else {
            let i = (j - 1) as nat;
            assert(pow2(j) == 2 * pow2(i));
            assert((2 * m) * pow2(i) == m * pow2(j)) by (nonlinear_arith)
                requires
                    pow2(j) == 2 * pow2(i),
            ;
            lemma_scale_shift(2 * m, i);
            let k = scale_shift(2 * m);
            assert(pow2(k + 1) == 2 * pow2(k));
            assert((2 * m) * pow2(k) == m * pow2(k + 1)) by (nonlinear_arith)
                requires
                    pow2(k + 1) == 2 * pow2(k),
            ;
        }
    } else {
        assert(pow2(0) == 1);
        assert(m * pow2(0) == m) by (nonlinear_arith)
            requires
                pow2(0) == 1,
        ;
    }
}

/// Every 16-bit magnitude needs at most 15 doublings.
pub proof fn lemma_scale_shift_of_sample(m: int)
    requires
        1 <= m <= 32768,
    ensures
        scale_shift(m) <= 15,
        32767 <= normalized(m) < 65534,
        normalized(m) == m * pow2(scale_shift(m)),
{
    reveal_with_fuel(pow2, 16);
    assert(pow2(15) == 32768);
    assert(m * pow2(15) >= 32767) by (nonlinear_arith)
        requires
            m >= 1,
            pow2(15) == 32768,
    ;
    lemma_scale_shift(m, 15);
}

/// The significand is normalised and is the correctly rounded quotient:
/// it differs from `m * 2^k * 2^23 / 32767` by less than one half. With the
/// exponent `-k`, the encoded value `significand * 2^(-23 - k)` is therefore
/// the float nearest to `m / 32767`, and the exponent field is that of a
/// normal number.
pub proof fn lemma_significand_nearest(m: int)
    requires
        1 <= m <= 32768,
    ensures
        0x80_0000 <= significand(m) < 0x100_0000,
        112 <= exponent_field(m) <= 127,
        2 * (significand(m) * 32767 - m * pow2(scale_shift(m)) * 0x80_0000) < 32767,
        2 * (m * pow2(scale_shift(m)) * 0x80_0000 - significand(m) * 32767) < 32767,
{
    lemma_scale_shift_of_sample(m);
    let n = normalized(m);
    let sig = significand(m);
    assert(sig == (2 * (n * 0x80_0000) + 32767) / 65534);
    assert((2 * (n * 0x80_0000) - 65534 * sig) % 2 == 0);
}

/// The full-scale sample converts to exactly 1.0 and the most negative one
/// to the float just below -1.0 by 256 units in the last place; neither is
/// clamped.
pub proof fn lemma_extreme_samples()
    ensures
        sample_bits(32767) == 0x3F80_0000,
        sample_bits(-32767) == 0xBF80_0000,
        sample_bits(-32768) == 0xBF80_0100,
        sample_bits(0) == 0,
{
    assert(normalized(32767) == 32767 && scale_shift(32767) == 0);
    assert(normalized(32768) == 32768 && scale_shift(32768) == 0);
    assert(nearest_quotient(32767int * 0x80_0000, 32767) == 0x80_0000) by (nonlinear_arith);
    assert(nearest_quotient(32768int * 0x80_0000, 32767) == 0x80_0100) by (nonlinear_arith);
}

/// The sign bit of a pattern.
pub open spec fn sign_field(bits: int) -> int {
    bits / 0x8000_0000
}

/// The eight exponent bits of a pattern.
pub open spec fn biased_exponent(bits: int) -> int {
    bits / 0x80_0000 % 0x100
}

/// The 23 fraction bits of a pattern.
pub open spec fn fraction_field(bits: int) -> int {
    bits % 0x80_0000
}

/// The pattern of a non-zero sample is a 32-bit word whose sign bit tells
/// whether the sample is negative, whose exponent field is 127 less the
/// number of doublings, and whose fraction is the significand without its
/// leading bit.
pub proof fn lemma_sample_bits_fields(s: int)
    requires
        -32768 <= s <= 32767,
        s != 0,
    ensures
        0 <= sample_bits(s) < 0x1_0000_0000,
        sign_field(sample_bits(s)) == (if s < 0 { 1int } else { 0int }),
        biased_exponent(sample_bits(s)) == exponent_field(magnitude(s)),
        fraction_field(sample_bits(s)) == significand(magnitude(s)) - 0x80_0000,
{
    lemma_significand_nearest(magnitude(s));
}

/// Negating a sample flips the sign bit of its pattern and nothing else.
pub proof fn lemma_sample_bits_odd(s: int)
    requires
        1 <= s <= 32767,
    ensures
        sample_bits(-s) == sample_bits(s) + 0x8000_0000,
{
}

/// The bit pattern of the single-precision float nearest to `s / 32767`.
pub fn sample_to_f32_bits(s: i16) -> (bits: u32)
    ensures
        bits == sample_bits(s as int),
{
    if s == 0 {
        return 0;
    }
    let wide: i32 = s as i32;
    let m: u32 = if wide < 0 { (-wide) as u32 } else { wide as u32 };
    proof {
        lemma_scale_shift_of_sample(m as int);
    }
    let mut scaled: u32 = m;
    let mut shift: u32 = 0;
    while scaled < FULL_SCALE
        invariant
            1 <= scaled < 65534,
            scale_shift(m as int) == shift + scale_shift(scaled as int),
            normalized(m as int) == normalized(scaled as int),
            scale_shift(m as int) <= 15,
        decreases 65534 - scaled,
    {
        scaled = scaled * 2;
        shift = shift + 1;
    }
    let numerator: u64 = (scaled as u64) * (HIDDEN_BIT as u64);
    let sig: u64 = (2 * numerator + (FULL_SCALE as u64)) / (2 * (FULL_SCALE as u64));
    assert(HIDDEN_BIT <= sig < 2 * HIDDEN_BIT);
    let sign: u32 = if wide < 0 { SIGN_BIT } else { 0 };
    let exponent: u32 = EXPONENT_BIAS - shift;
    sign + exponent * HIDDEN_BIT + ((sig as u32) - HIDDEN_BIT)
}

} // verus!
