use multi_platform_screen_grabbing_utility::geometry::{
    clamp_slope, isqrt, map_point, normalize, offset_along, radius, Bounds, CropRect, Point, Slope,
};

fn p(x: i32, y: i32) -> Point {
    Point { x, y }
}

#[test]
fn normalize_is_order_independent() {
    let expected = CropRect { x: 10, y: 10, width: 40, height: 30 };
    assert_eq!(normalize(p(10, 10), p(50, 40)), expected);
    assert_eq!(normalize(p(50, 40), p(10, 10)), expected);
    assert_eq!(normalize(p(50, 10), p(10, 40)), expected);
    assert_eq!(normalize(p(10, 40), p(50, 10)), expected);
}

#[test]
fn normalize_degenerate_rectangle_has_zero_width() {
    let r = normalize(p(7, 3), p(7, 20));
    assert_eq!(r, CropRect { x: 7, y: 3, width: 0, height: 17 });
}

#[test]
fn slope_clamps_to_fixed_magnitudes() {
    assert_eq!(clamp_slope(10, 2), Slope { num: 1, den: 2 });
    assert_eq!(clamp_slope(10, 12), Slope { num: 1, den: 1 });
    assert_eq!(clamp_slope(10, -2), Slope { num: -1, den: 2 });
    assert_eq!(clamp_slope(10, -12), Slope { num: -1, den: 1 });
}

#[test]
fn slope_between_half_and_one_is_kept() {
    assert_eq!(clamp_slope(10, 8), Slope { num: 8, den: 10 });
    assert_eq!(clamp_slope(-10, 8), Slope { num: -8, den: 10 });
    assert_eq!(clamp_slope(10, 0), Slope { num: 0, den: 10 });
}

#[test]
fn vertical_and_empty_shafts() {
    assert_eq!(clamp_slope(0, 5), Slope { num: 1, den: 1 });
    assert_eq!(clamp_slope(0, -5), Slope { num: -1, den: 1 });
    assert_eq!(clamp_slope(0, 0), Slope { num: 0, den: 1 });
}

#[test]
fn head_offset_rounds_toward_zero() {
    assert_eq!(offset_along(Slope { num: 1, den: 2 }, 30), 15);
    assert_eq!(offset_along(Slope { num: -1, den: 1 }, 30), -30);
    assert_eq!(offset_along(Slope { num: -8, den: 10 }, 30), -24);
    assert_eq!(offset_along(Slope { num: 2, den: 3 }, 30), 20);
}

#[test]
fn integer_square_root() {
    assert_eq!(isqrt(0), 0);
    assert_eq!(isqrt(24), 4);
    assert_eq!(isqrt(25), 5);
    assert_eq!(isqrt(u64::MAX), 4294967295);
}

#[test]
fn circle_radius_is_euclidean_distance_rounded_down() {
    assert_eq!(radius(p(0, 0), p(3, 4)), 5);
    assert_eq!(radius(p(10, 10), p(12, 13)), 3);
}

#[test]
fn display_positions_scale_into_the_image() {
    let b = Bounds { x: 100, y: 50, width: 200, height: 100 };
    assert!(b.contains(p(300, 150)));
    assert!(!b.contains(p(301, 150)));
    assert_eq!(map_point(b, p(200, 100), 400, 300), p(200, 150));
    assert_eq!(map_point(b, p(300, 150), 400, 300), p(400, 300));
}

#[test]
fn empty_bounds_map_to_origin() {
    let b = Bounds { x: 0, y: 0, width: 0, height: 10 };
    assert_eq!(map_point(b, p(0, 5), 400, 300), p(0, 0));
}
