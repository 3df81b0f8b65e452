use image2unicodeart::quantize::{brightness_to_index, pixel_brightness, BRIGHTNESS_DEN};

#[test]
fn quantizer_boundary_dark() {
    // brightness 0.0, 5 glyphs -> index 0
    assert_eq!(brightness_to_index(0, BRIGHTNESS_DEN, 5), 0);
}

#[test]
fn quantizer_boundary_bright() {
    // brightness 1.0, 5 glyphs -> index 4
    assert_eq!(brightness_to_index(BRIGHTNESS_DEN, BRIGHTNESS_DEN, 5), 4);
}

#[test]
fn quantizer_boundary_middle() {
    // brightness 0.5, 5 glyphs -> round(0.5 * 5 - 0.5) = 2
    assert_eq!(brightness_to_index(1, 2, 5), 2);
}

#[test]
fn quantizer_two_glyphs_white() {
    // brightness 1.0, 2 glyphs -> round(1.0 * 2 - 0.5) = 2, clamped to 1
    assert_eq!(brightness_to_index(BRIGHTNESS_DEN, BRIGHTNESS_DEN, 2), 1);
}

#[test]
fn quantizer_above_one_clamps() {
    // brightness 1.5 is tolerated and clamps to the brightest glyph
    assert_eq!(brightness_to_index(3, 2, 5), 4);
}

#[test]
fn quantizer_single_glyph() {
    for num in [0u32, 1, 32512, 65025] {
        assert_eq!(brightness_to_index(num, BRIGHTNESS_DEN, 1), 0);
    }
}

#[test]
fn quantizer_total_and_in_range() {
    for n in 1..=9usize {
        for num in (0..=65025u32).step_by(3) {
            let i = brightness_to_index(num, BRIGHTNESS_DEN, n);
            assert!(i < n);
        }
    }
}

#[test]
fn quantizer_monotonic() {
    for n in [1usize, 2, 3, 5, 8] {
        let mut last = 0usize;
        for num in 0..=65025u32 {
            let i = brightness_to_index(num, BRIGHTNESS_DEN, n);
            assert!(i >= last);
            last = i;
        }
    }
}

#[test]
fn sampler_opaque_scores_by_luminance() {
    assert_eq!(pixel_brightness((255, 255, 255, 255)), 65025);
    assert_eq!(pixel_brightness((128, 128, 128, 255)), 128 * 255);
    assert_eq!(pixel_brightness((0, 0, 0, 255)), 0);
}

#[test]
fn sampler_transparent_scores_zero() {
    for luma in [0u8, 1, 64, 128, 255] {
        let b = pixel_brightness((luma, luma, luma, 0));
        assert_eq!(b, 0);
        for n in 1..=6usize {
            assert_eq!(brightness_to_index(b, BRIGHTNESS_DEN, n), 0);
        }
    }
}

#[test]
fn sampler_alpha_scales() {
    // half-transparent white scores half
    assert_eq!(pixel_brightness((255, 255, 255, 128)), 255 * 128);
}
