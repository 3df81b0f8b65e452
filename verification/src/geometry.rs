//! Geometry planning: the raster size an image must be resized to so that
//! the character grid keeps the source's aspect ratio under non-square
//! character cells.
//!
//! The symbol aspect ratio (a terminal glyph's visual height/width factor)
//! is an exact rational, so the planned height
//! `trunc(width * ratio / (orig_w / orig_h))` is the integer quotient
//! `(width * ratio.num * orig_h) / (ratio.den * orig_w)`. The height
//! truncates, deliberately, while brightness quantization rounds:
//! under-sizing keeps a degenerate plan at an honest 0 rather than 1.

use vstd::prelude::*;

verus! {

/// A positive rational symbol aspect ratio `num / den`. A ratio of 1/2
/// stands for glyph cells twice as tall as wide.
#[derive(Clone, Copy, Debug)]
pub struct SymbolRatio {
    pub num: u32,
    pub den: u32,
}

impl SymbolRatio {
    /// A ratio is usable once its denominator is positive; a zero numerator
    /// is tolerated and yields an empty plan.
    pub open spec fn wf(self) -> bool {
        self.den >= 1
    }
}

/// The planned raster height for a source of `orig_w x orig_h` pixels,
/// a requested width of `w` character cells and a symbol ratio `rn / rd`:
/// `floor(w * (rn / rd) / (orig_w / orig_h))`, exactly.
pub open spec fn plan_height_spec(orig_w: int, orig_h: int, w: int, rn: int, rd: int) -> int {
    (w * rn * orig_h) / (rd * orig_w)
}

/// The height actually planned: the exact quotient, saturated at
/// `u32::MAX` where it does not fit the pixel type.
pub open spec fn plan_height_sat_spec(orig_w: int, orig_h: int, w: int, rn: int, rd: int) -> int {
    let h = plan_height_spec(orig_w, orig_h, w, rn, rd);
    if h > u32::MAX {
        u32::MAX as int
    } else {
        h
    }
}

/// Computes the raster height that keeps the source's aspect ratio for a
/// grid of `w` cells of symbol ratio `ratio`. A degenerate result of 0
/// (extreme ratios, tiny widths) is an ordinary outcome, not an error.
pub fn plan_height(orig_w: u32, orig_h: u32, w: u32, ratio: &SymbolRatio) -> (h: u32)
    requires
        orig_w >= 1,
        orig_h >= 1,
        ratio.wf(),
    ensures
        h == plan_height_sat_spec(
            orig_w as int,
            orig_h as int,
            w as int,
            ratio.num as int,
            ratio.den as int,
        ),
{
    proof {
        assert(0 <= (w as int) * (ratio.num as int) <= 0xffff_ffff_ffff_ffff
            && 0 <= (w as int) * (ratio.num as int) * (orig_h as int) <= u128::MAX
            && 1 <= (ratio.den as int) * (orig_w as int) <= u128::MAX) by (nonlinear_arith)
            requires
                w <= u32::MAX,
                ratio.num <= u32::MAX,
                orig_h <= u32::MAX,
                ratio.den >= 1,
                orig_w >= 1,
        ;
    }
    let numer: u128 = (w as u128) * (ratio.num as u128) * (orig_h as u128);
    let denom: u128 = (ratio.den as u128) * (orig_w as u128);
    let q: u128 = numer / denom;
    if q > u32::MAX as u128 {
        u32::MAX
    } else {
        q as u32
    }
}

/// Computes the full target raster size: the requested width (the source's
/// own width where none was requested) paired with the planned height.
pub fn plan_dimensions(orig_w: u32, orig_h: u32, output_width: Option<u32>, ratio: &SymbolRatio) -> (d: (
    u32,
    u32,
))
    requires
        orig_w >= 1,
        orig_h >= 1,
        ratio.wf(),
    ensures
        d.0 == if output_width is Some {
            output_width->0
        } else {
            orig_w
        },
        d.1 == plan_height_sat_spec(
            orig_w as int,
            orig_h as int,
            d.0 as int,
            ratio.num as int,
            ratio.den as int,
        ),
{
    let w = match output_width {
        Some(w) => w,
        None => orig_w,
    };
    let h = plan_height(orig_w, orig_h, w, ratio);
    (w, h)
}

} // verus!
