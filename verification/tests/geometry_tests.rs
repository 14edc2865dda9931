use raycaster::fixed::{
    abs_i64, floor_div, fx_add, fx_div, fx_half, fx_mul, fx_sub, fx_trunc, int_to_fx, FX_LIMIT,
    FX_SCALE,
};
use raycaster::geometry::{
    cast_ray, fx_ceil_units, normalize_angle, points_distance, tan_fx, Axis, Vec2, EPSILON,
    HALF_PI, PI_FX, TWO_PI,
};

#[test]
fn fx_add_and_sub_are_exact_in_range() {
    assert_eq!(fx_add(1_500_000, 2_500_000), 4_000_000);
    assert_eq!(fx_sub(1_500_000, 2_500_000), -1_000_000);
    assert_eq!(fx_add(-7, 7), 0);
}

#[test]
fn fx_add_saturates_at_the_limit() {
    assert_eq!(fx_add(FX_LIMIT, 1), FX_LIMIT);
    assert_eq!(fx_sub(-FX_LIMIT, 1), -FX_LIMIT);
    assert_eq!(fx_add(FX_LIMIT, -1), FX_LIMIT - 1);
}

#[test]
fn fx_mul_scales_and_truncates_toward_zero() {
    assert_eq!(fx_mul(2_500_000, 4_000_000), 10_000_000);
    assert_eq!(fx_mul(-1_500_000, 1_000_000), -1_500_000);
    assert_eq!(fx_mul(1, 1), 0);
    assert_eq!(fx_mul(-1_000_001, 1_500_000), -1_500_001);
}

#[test]
fn fx_div_is_exact_and_handles_zero() {
    assert_eq!(fx_div(1_000_000, 2_000_000), 500_000);
    assert_eq!(fx_div(-3_000_000, 2_000_000), -1_500_000);
    assert_eq!(fx_div(1_000_000, 0), FX_LIMIT);
    assert_eq!(fx_div(-1_000_000, 0), -FX_LIMIT);
}

#[test]
fn fx_helpers_round_the_way_the_contracts_say() {
    assert_eq!(fx_half(5_000_000), 2_500_000);
    assert_eq!(fx_half(-5_000_001), -2_500_000);
    assert_eq!(fx_trunc(2_999_999), 2);
    assert_eq!(fx_trunc(-2_999_999), -2);
    assert_eq!(floor_div(-1, 25_000_000), -1);
    assert_eq!(floor_div(24_999_999, 25_000_000), 0);
    assert_eq!(floor_div(25_000_000, 25_000_000), 1);
    assert_eq!(int_to_fx(25), 25_000_000);
    assert_eq!(abs_i64(-41), 41);
    assert_eq!(fx_ceil_units(5_000_001), 6_000_000);
    assert_eq!(fx_ceil_units(5_000_000), 5_000_000);
}

#[test]
fn normalize_angle_brings_angles_into_one_turn() {
    assert_eq!(normalize_angle(-1_000_000), TWO_PI - 1_000_000);
    assert_eq!(normalize_angle(7_000_000), 7_000_000 - TWO_PI);
    assert_eq!(normalize_angle(3), 3);
    assert_eq!(normalize_angle(0), 0);
    // An angle of exactly one turn is kept, not wrapped to zero.
    assert_eq!(normalize_angle(TWO_PI), TWO_PI);
}

#[test]
fn normalize_angle_is_idempotent_on_samples() {
    for a in [-100_000_000i64, -1, 0, 1, 3_141_593, 6_283_185, 6_283_186, 99_999_999] {
        let once = normalize_angle(a);
        assert_eq!(normalize_angle(once), once);
        assert!(0 <= once && once <= TWO_PI);
    }
}

#[test]
fn tangent_has_the_expected_signs_and_zeros() {
    assert_eq!(tan_fx(0), 0);
    assert_eq!(tan_fx(PI_FX), 0);
    assert_eq!(tan_fx(TWO_PI), 0);
    // First quadrant: positive; second: negative.
    assert!(tan_fx(780_000) > 0);
    assert!(tan_fx(2_400_000) < 0);
    // Roughly 45 degrees gives roughly one.
    let t = tan_fx(785_398);
    assert!((900_000..1_100_000).contains(&t));
}

#[test]
fn cast_ray_straight_up_exits_the_top_edge() {
    let origin = Vec2 { x: 50_000_000i64, y: 70_000_000i64 };
    let top_left = Vec2 { x: 50_000_000i64, y: 50_000_000i64 };
    let (exit, axis) = cast_ray(origin, 0, top_left, 25_000_000, 25_000_000);
    assert!(matches!(axis, Axis::OnY));
    // The exit sits on the top edge, nudged past it; heading zero points
    // into the left half-plane, so x is nudged left.
    assert_eq!(exit.y, 50_000_000 - EPSILON);
    assert_eq!(exit.x, 50_000_000 - EPSILON);
}

#[test]
fn cast_ray_to_the_right_exits_the_right_edge() {
    let origin = Vec2 { x: 10_000_000i64, y: 12_500_000i64 };
    let top_left = Vec2 { x: 0i64, y: 0i64 };
    let (exit, axis) = cast_ray(origin, HALF_PI, top_left, 25_000_000, 25_000_000);
    assert!(matches!(axis, Axis::OnX));
    assert_eq!(exit.x, 25_000_000 + EPSILON);
}

#[test]
fn cast_ray_exit_point_lies_on_the_boundary_for_many_headings() {
    let origin = Vec2 { x: 60_000_000i64, y: 62_000_000i64 };
    let top_left = Vec2 { x: 50_000_000i64, y: 50_000_000i64 };
    let w = 25_000_000i64;
    let h = 25_000_000i64;
    let mut pitch = 0i64;
    while pitch <= TWO_PI {
        let (exit, axis) = cast_ray(origin, pitch, top_left, w, h);
        match axis {
            Axis::OnY => {
                assert!(
                    exit.y == top_left.y - EPSILON || exit.y == top_left.y + h + EPSILON,
                    "pitch {pitch}: y {}",
                    exit.y
                );
                assert!(top_left.x - EPSILON <= exit.x && exit.x <= top_left.x + w + EPSILON);
            }
            Axis::OnX => {
                assert!(
                    exit.x == top_left.x - EPSILON || exit.x == top_left.x + w + EPSILON,
                    "pitch {pitch}: x {}",
                    exit.x
                );
            }
        }
        pitch += 97_511;
    }
}

#[test]
fn points_distance_matches_known_triples() {
    let a = Vec2 { x: 0i64, y: 0i64 };
    let b = Vec2 { x: 3_000_000i64, y: 4_000_000i64 };
    assert_eq!(points_distance(a, b), 5_000_000);
    assert_eq!(points_distance(b, a), 5_000_000);
    assert_eq!(points_distance(a, a), 0);
    // A non-square distance truncates down.
    let c = Vec2 { x: 1_000_000i64, y: 1_000_000i64 };
    assert_eq!(points_distance(a, c), 1_414_213);
}

#[test]
fn scale_constant_is_one_world_unit() {
    assert_eq!(FX_SCALE, 1_000_000);
    assert!(FX_LIMIT > 0);
}
