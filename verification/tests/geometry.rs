use image2unicodeart::geometry::{plan_dimensions, plan_height, SymbolRatio};

fn half() -> SymbolRatio {
    SymbolRatio { num: 1, den: 2 }
}

#[test]
fn geometry_example() {
    // orig 100x50, w = 50, r = 1/2: aspect 2.0, trunc(50 * 0.5 / 2.0) = 12
    assert_eq!(plan_height(100, 50, 50, &half()), 12);
}

#[test]
fn geometry_truncates_not_rounds() {
    // 50 * 0.5 / 2.0 = 12.5 truncates to 12, never rounds to 13
    let h = plan_height(100, 50, 50, &half());
    assert_ne!(h, 13);
}

#[test]
fn geometry_default_width_is_source_width() {
    assert_eq!(plan_dimensions(100, 50, None, &half()), (100, 25));
}

#[test]
fn geometry_requested_width() {
    assert_eq!(plan_dimensions(100, 50, Some(50), &half()), (50, 12));
}

#[test]
fn geometry_degenerate_height_is_zero() {
    // extreme source aspect ratio: trunc(5 * 0.5 / 1000.0) = 0
    assert_eq!(plan_height(1000, 1, 5, &half()), 0);
}

#[test]
fn geometry_zero_width_plans_zero_height() {
    assert_eq!(plan_dimensions(2, 2, Some(0), &half()), (0, 0));
}

#[test]
fn geometry_square_source() {
    // orig 2x2, w = 2, r = 1/2: aspect 1.0, trunc(2 * 0.5) = 1
    assert_eq!(plan_height(2, 2, 2, &half()), 1);
}

#[test]
fn geometry_saturates_at_pixel_limit() {
    let tall = SymbolRatio { num: u32::MAX, den: 1 };
    assert_eq!(plan_height(1, u32::MAX, u32::MAX, &tall), u32::MAX);
}
