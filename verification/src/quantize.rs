//! Brightness sampling and quantization: maps a pixel's channels to a
//! normalized brightness, and a brightness to a glyph index of a charset.
//!
//! Brightness is an exact rational `num / den` in `[0, 1]` (a pixel scores
//! `(channel0 / 255) * (channel3 / 255)`, i.e. `channel0 * channel3` over
//! `255 * 255`). The quantizer computes `round(brightness * num_chars - 0.5)`
//! clamped to `[0, num_chars - 1]`, which for a non-negative rational equals
//! `min(floor(num * num_chars / den), num_chars - 1)`.

use vstd::arithmetic::div_mod::lemma_div_is_ordered;
use vstd::arithmetic::mul::lemma_mul_inequality;
use vstd::prelude::*;

verus! {

/// Denominator of the brightness rational produced by a pixel sample:
/// both channels range over `0..=255`, so the product ranges over
/// `0..=255 * 255`.
pub const BRIGHTNESS_DEN: u32 = 65025;

/// Brightness numerator of one RGBA pixel, over denominator
/// `BRIGHTNESS_DEN`: luminance (channel 0) times alpha (channel 3).
pub open spec fn brightness_num_spec(p: (u8, u8, u8, u8)) -> int {
    p.0 * p.3
}

/// The glyph index that a brightness `num / den` selects out of `n` glyphs:
/// `round(num / den * n - 1/2)` clamped to `[0, n - 1]`, which for
/// `num >= 0`, `den >= 1`, `n >= 1` equals `min(floor(num * n / den), n - 1)`.
pub open spec fn quantize_spec(num: int, den: int, n: int) -> int {
    let q = (num * n) / den;
    if q > n - 1 {
        n - 1
    } else {
        q
    }
}

/// Computes the brightness numerator of one pixel (over `BRIGHTNESS_DEN`):
/// channel 0 is luminance, channel 3 is alpha, so a fully transparent pixel
/// scores 0 whatever its luminance.
pub fn pixel_brightness(p: (u8, u8, u8, u8)) -> (r: u32)
    ensures
        r == brightness_num_spec(p),
        r <= BRIGHTNESS_DEN,
{
    proof {
        assert(p.0 * p.3 <= 255 * 255) by (nonlinear_arith)
            requires
                p.0 <= 255,
                p.3 <= 255,
        ;
    }
    (p.0 as u32) * (p.3 as u32)
}

/// Maps a brightness `num / den` to a glyph index in `[0, num_chars - 1]`.
/// Brightness above 1 is tolerated and clamps to the brightest glyph.
pub fn brightness_to_index(num: u32, den: u32, num_chars: usize) -> (r: usize)
    requires
        den >= 1,
        num_chars >= 1,
    ensures
        r == quantize_spec(num as int, den as int, num_chars as int),
        r < num_chars,
{
    proof {
        assert((num as int) * (num_chars as int) <= u128::MAX) by (nonlinear_arith)
            requires
                num <= u32::MAX,
                num_chars <= u64::MAX,
        ;
    }
    let q: u128 = (num as u128) * (num_chars as u128) / (den as u128);
    let cap: u128 = (num_chars - 1) as u128;
    if q > cap {
        num_chars - 1
    } else {
        q as usize
    }
}

/// The quantizer's range: the index is always within the charset.
pub proof fn lemma_quantize_in_range(num: int, den: int, n: int)
    requires
        num >= 0,
        den >= 1,
        n >= 1,
    ensures
        0 <= quantize_spec(num, den, n) < n,
{
    assert(num * n >= 0) by (nonlinear_arith)
        requires
            num >= 0,
            n >= 1,
    ;
    assert((num * n) / den >= 0) by (nonlinear_arith)
        requires
            num * n >= 0,
            den >= 1,
    ;
}

/// The quantizer's monotonicity: for a fixed denominator and charset size,
/// the index is non-decreasing as brightness increases.
pub proof fn lemma_quantize_monotonic(num1: int, num2: int, den: int, n: int)
    requires
        0 <= num1 <= num2,
        den >= 1,
        n >= 1,
    ensures
        quantize_spec(num1, den, n) <= quantize_spec(num2, den, n),
{
    lemma_mul_inequality(num1, num2, n);
    lemma_div_is_ordered(num1 * n, num2 * n, den);
}

/// Transparency renders darkest: a pixel with alpha 0 quantizes to index 0,
/// whatever its luminance.
pub proof fn lemma_transparent_is_darkest(p: (u8, u8, u8, u8), n: int)
    requires
        p.3 == 0,
        n >= 1,
    ensures
        quantize_spec(brightness_num_spec(p), BRIGHTNESS_DEN as int, n) == 0,
{
    assert(brightness_num_spec(p) == 0) by (nonlinear_arith)
        requires
            p.3 == 0,
    ;
}

} // verus!
