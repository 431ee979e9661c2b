use tank_game::math::{isqrt, product, saturating, scale_scalar, square, Vec3};

#[test]
fn square_roots_are_rounded_down() {
    assert_eq!(isqrt(0), 0);
    assert_eq!(isqrt(1), 1);
    assert_eq!(isqrt(3), 1);
    assert_eq!(isqrt(4), 2);
    assert_eq!(isqrt(24), 4);
    assert_eq!(isqrt(25), 5);
    assert_eq!(isqrt(6_250_000), 2500);
    assert_eq!(isqrt(6_249_999), 2499);
    assert_eq!(isqrt(u128::MAX), u64::MAX);
    assert_eq!(isqrt((u64::MAX as u128) * (u64::MAX as u128)), u64::MAX);
    assert_eq!(isqrt((u64::MAX as u128) * (u64::MAX as u128) - 1), u64::MAX - 1);
}

#[test]
fn stored_values_saturate() {
    assert_eq!(saturating(0), 0);
    assert_eq!(saturating(-7), -7);
    assert_eq!(saturating(i64::MAX as i128), i64::MAX);
    assert_eq!(saturating(i64::MAX as i128 + 1), i64::MAX);
    assert_eq!(saturating(i64::MIN as i128), i64::MIN);
    assert_eq!(saturating(i64::MIN as i128 - 1), i64::MIN);
    assert_eq!(saturating(i128::MAX), i64::MAX);
    assert_eq!(saturating(i128::MIN), i64::MIN);
}

#[test]
fn quotients_round_toward_zero() {
    assert_eq!(scale_scalar(7, 1, 2), 3);
    assert_eq!(scale_scalar(-7, 1, 2), -3);
    assert_eq!(scale_scalar(5000, 100_000, 1_000_000), 500);
    assert_eq!(scale_scalar(-6666, 500_000, 1_000_000), -3333);
    assert_eq!(scale_scalar(999, 1, 1000), 0);
    assert_eq!(scale_scalar(-999, 1, 1000), 0);
    assert_eq!(scale_scalar(i64::MAX, 2, 1), i64::MAX);
    assert_eq!(scale_scalar(i64::MIN, u64::MAX, 1), i64::MIN);
}

#[test]
fn products_and_squares_are_exact() {
    assert_eq!(product(3, -4), -12);
    assert_eq!(product(i64::MIN, i64::MIN), 1i128 << 126);
    assert_eq!(product(i64::MAX, i64::MIN), -(i64::MAX as i128) * (1i128 << 63));
    assert_eq!(square(-5), 25);
    assert_eq!(square(i64::MIN), 1u128 << 126);
}

#[test]
fn vectors_add_and_subtract_by_coordinate() {
    let a = Vec3 { x: 1, y: -2, z: 3 };
    let b = Vec3 { x: 10, y: 20, z: -30 };
    assert_eq!(a.add_vec(b), Vec3 { x: 11, y: 18, z: -27 });
    assert_eq!(a.sub_vec(b), Vec3 { x: -9, y: -22, z: 33 });
    assert_eq!(Vec3::origin(), Vec3 { x: 0, y: 0, z: 0 });
    let edge = Vec3 { x: i64::MAX, y: i64::MIN, z: 0 };
    assert_eq!(edge.add_vec(Vec3 { x: 1, y: -1, z: 0 }), edge);
    assert_eq!(edge.sub_vec(Vec3 { x: -1, y: 1, z: 0 }), edge);
}

#[test]
fn vectors_scale_by_a_ratio() {
    let v = Vec3 { x: 5000, y: -5000, z: 1 };
    assert_eq!(v.scale(100_000, 1_000_000), Vec3 { x: 500, y: -500, z: 0 });
    assert_eq!(v.scale(3, 2), Vec3 { x: 7500, y: -7500, z: 1 });
}

#[test]
fn lengths_are_compared_by_their_squares() {
    let v = Vec3 { x: 3000, y: 0, z: 4000 };
    assert_eq!(v.length_squared(), 25_000_000);
    assert_eq!(v.length(), 5000);
    assert!(v.is_longer_than(4999));
    assert!(!v.is_longer_than(5000));
    let w = Vec3 { x: 1, y: 1, z: 1 };
    assert_eq!(w.length(), 1);
    assert!(w.is_longer_than(1));
    assert!(!w.is_longer_than(2));
    let far = Vec3 { x: i64::MIN, y: i64::MIN, z: i64::MIN };
    assert_eq!(far.length_squared(), 3u128 << 126);
    assert!(far.is_longer_than(u32::MAX));
}
