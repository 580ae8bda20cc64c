use entity_core::geometry::{Rect, Vector2};
use entity_core::scalar::Scalar;

fn s(raw: i64) -> Scalar {
    Scalar::from_raw(raw)
}

fn v(x: i64, y: i64) -> Vector2 {
    Vector2::new(s(x), s(y))
}

#[test]
fn vector_new_keeps_components() {
    let vector = Vector2::new(s(3), s(-4));
    assert_eq!(vector.x, s(3));
    assert_eq!(vector.y, s(-4));
}

#[test]
fn vector_zero_has_zero_components() {
    assert_eq!(Vector2::zero(), v(0, 0));
}

#[test]
fn vector_plus_adds_componentwise() {
    assert_eq!(v(1, 2).plus(v(10, -20)), v(11, -18));
    assert_eq!(v(1, 2).plus(Vector2::zero()), v(1, 2));
    assert_eq!(v(i64::MAX, i64::MIN).plus(v(5, -5)), v(i64::MAX, i64::MIN));
}

#[test]
fn vector_scaled_multiplies_both_components() {
    assert_eq!(v(2_000_000, -4_000_000).scaled(s(500_000)), v(1_000_000, -2_000_000));
    assert_eq!(v(2_000_000, -4_000_000).scaled(Scalar::zero()), Vector2::zero());
    assert_eq!(v(3, -3).scaled(s(500_000)), v(1, -1));
}

#[test]
fn rect_new_keeps_fields() {
    let rect = Rect::new(s(1), s(2), s(3), s(4));
    assert_eq!(rect.x, s(1));
    assert_eq!(rect.y, s(2));
    assert_eq!(rect.w, s(3));
    assert_eq!(rect.h, s(4));
}

#[test]
fn rect_xy_is_the_corner() {
    assert_eq!(Rect::new(s(1), s(2), s(3), s(4)).xy(), v(1, 2));
}

#[test]
fn rect_advance_moves_the_corner_and_keeps_the_extent() {
    let mut rect = Rect::new(s(1_000_000), s(2_000_000), s(30), s(40));
    rect.advance(v(1_000_000, -500_000), s(20_000));
    assert_eq!(rect, Rect::new(s(1_020_000), s(1_990_000), s(30), s(40)));
}

#[test]
fn rect_advance_with_zero_time_stays() {
    let mut rect = Rect::new(s(-5), s(6), s(7), s(8));
    rect.advance(v(123_456_789, -987_654_321), Scalar::zero());
    assert_eq!(rect, Rect::new(s(-5), s(6), s(7), s(8)));
}

#[test]
fn rect_advance_saturates() {
    let mut rect = Rect::new(s(i64::MAX - 1), s(i64::MIN + 1), s(0), s(0));
    rect.advance(v(1_000_000, -1_000_000), Scalar::from_int(1));
    assert_eq!(rect, Rect::new(s(i64::MAX), s(i64::MIN), s(0), s(0)));
}
