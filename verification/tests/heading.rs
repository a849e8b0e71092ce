use pong::geometry::{half, Vec2};
use pong::heading::isqrt;

#[test]
fn isqrt_rounds_down() {
    assert_eq!(isqrt(0), 0);
    assert_eq!(isqrt(1), 1);
    assert_eq!(isqrt(2), 1);
    assert_eq!(isqrt(3), 1);
    assert_eq!(isqrt(4), 2);
    assert_eq!(isqrt(15), 3);
    assert_eq!(isqrt(16), 4);
    assert_eq!(isqrt(17), 4);
    assert_eq!(isqrt(2_000_000), 1414);
    assert_eq!(isqrt(1_360_000), 1166);
}

#[test]
fn isqrt_covers_the_whole_range() {
    assert_eq!(isqrt(u64::MAX), 4_294_967_295);
    assert_eq!(isqrt(4_294_967_295 * 4_294_967_295), 4_294_967_295);
    assert_eq!(isqrt(4_294_967_295 * 4_294_967_295 - 1), 4_294_967_294);
}

#[test]
fn normalize_scales_to_thousandths() {
    assert_eq!(Vec2::new(3, 4).normalize(), Vec2::new(600, 800));
    assert_eq!(Vec2::new(-3, -4).normalize(), Vec2::new(-600, -800));
    assert_eq!(Vec2::new(0, 5).normalize(), Vec2::new(0, 1000));
    assert_eq!(Vec2::new(-7, 0).normalize(), Vec2::new(-1000, 0));
    assert_eq!(Vec2::new(1000, 1000).normalize(), Vec2::new(707, 707));
    assert_eq!(Vec2::new(600, 1000).normalize(), Vec2::new(514, 857));
}

#[test]
fn normalize_rounds_towards_zero() {
    assert_eq!(Vec2::new(1, 1).normalize(), Vec2::new(1000, 1000));
    assert_eq!(Vec2::new(-2, 2).normalize(), Vec2::new(-1000, 1000));
    assert_eq!(Vec2::new(-1, 3).normalize(), Vec2::new(-333, 1000));
}

#[test]
fn normalize_copes_with_the_ends_of_the_range() {
    assert_eq!(Vec2::new(i32::MIN, i32::MIN).normalize(), Vec2::new(-707, -707));
    assert_eq!(Vec2::new(i32::MAX, 0).normalize(), Vec2::new(1000, 0));
}

#[test]
fn half_rounds_down() {
    assert_eq!(half(0), 0);
    assert_eq!(half(1), 0);
    assert_eq!(half(7), 3);
    assert_eq!(half(8), 4);
    assert_eq!(half(-1), -1);
    assert_eq!(half(-7), -4);
    assert_eq!(half(-8), -4);
    assert_eq!(half(i64::MAX), 4_611_686_018_427_387_903);
    assert_eq!(half(i64::MIN), -4_611_686_018_427_387_904);
}
