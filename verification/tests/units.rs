use compositing::units::{Fixed, IntPoint, Point2D, Size2D, UintSize, Vector2D, UNIT};

fn fx(whole: i64) -> Fixed {
    Fixed::new(whole * UNIT)
}

#[test]
fn one_is_a_million_raw_steps() {
    assert_eq!(Fixed::one().raw, 1_000_000);
    assert_eq!(Fixed::from_i32(-3).raw, -3_000_000);
    assert_eq!(Fixed::from_u32(u32::MAX).raw, 4_294_967_295_000_000);
}

#[test]
fn product_is_exact_on_representable_values() {
    assert_eq!(fx(3).times(fx(4)), fx(12));
    assert_eq!(Fixed::new(1_500_000).times(Fixed::new(2_500_000)), Fixed::new(3_750_000));
    assert_eq!(Fixed::new(1_100_000).times(Fixed::new(1_100_000)), Fixed::new(1_210_000));
}

#[test]
fn product_rounds_toward_zero() {
    // 0.000001 * 0.5 = 0.0000005, which is below the resolution.
    assert_eq!(Fixed::new(1).times(Fixed::new(500_000)), Fixed::new(0));
    assert_eq!(Fixed::new(-1).times(Fixed::new(500_000)), Fixed::new(0));
    assert_eq!(Fixed::new(-3).times(Fixed::new(500_000)), Fixed::new(-1));
    assert_eq!(Fixed::new(3).times(Fixed::new(500_000)), Fixed::new(1));
}

#[test]
fn product_saturates() {
    assert_eq!(Fixed::new(i64::MAX).times(fx(2)), Fixed::new(i64::MAX));
    assert_eq!(Fixed::new(i64::MIN).times(fx(2)), Fixed::new(i64::MIN));
    assert_eq!(Fixed::new(i64::MIN).times(fx(-2)), Fixed::new(i64::MAX));
    assert_eq!(Fixed::new(i64::MIN).times(Fixed::new(i64::MIN)), Fixed::new(i64::MAX));
}

#[test]
fn quotient_is_exact_on_representable_values() {
    assert_eq!(fx(20).over(fx(2)), fx(10));
    assert_eq!(fx(1).over(fx(4)), Fixed::new(250_000));
    assert_eq!(fx(-9).over(fx(3)), fx(-3));
    assert_eq!(fx(9).over(fx(-3)), fx(-3));
    assert_eq!(fx(-9).over(fx(-3)), fx(3));
}

#[test]
fn quotient_rounds_toward_zero() {
    assert_eq!(fx(1).over(fx(3)), Fixed::new(333_333));
    assert_eq!(fx(-1).over(fx(3)), Fixed::new(-333_333));
    assert_eq!(fx(1).over(fx(-3)), Fixed::new(-333_333));
    assert_eq!(fx(2).over(fx(3)), Fixed::new(666_666));
}

#[test]
fn quotient_by_zero_goes_to_the_bound_on_the_side_of_the_dividend() {
    assert_eq!(fx(5).over(Fixed::new(0)), Fixed::new(i64::MAX));
    assert_eq!(fx(-5).over(Fixed::new(0)), Fixed::new(i64::MIN));
    assert_eq!(Fixed::new(0).over(Fixed::new(0)), Fixed::new(0));
}

#[test]
fn quotient_saturates() {
    assert_eq!(Fixed::new(i64::MAX).over(Fixed::new(1)), Fixed::new(i64::MAX));
    assert_eq!(Fixed::new(i64::MIN).over(Fixed::new(1)), Fixed::new(i64::MIN));
    assert_eq!(Fixed::new(i64::MIN).over(Fixed::new(-1)), Fixed::new(i64::MAX));
}

#[test]
fn max_and_min_pick_by_value() {
    assert_eq!(fx(2).max(fx(3)), fx(3));
    assert_eq!(fx(2).min(fx(3)), fx(2));
    assert_eq!(fx(-2).max(fx(-3)), fx(-2));
    assert_eq!(fx(-2).min(fx(-3)), fx(-3));
}

#[test]
fn whole_part_rounds_toward_zero_and_clamps() {
    assert_eq!(Fixed::new(2_999_999).whole(), 2);
    assert_eq!(Fixed::new(-2_999_999).whole(), -2);
    assert_eq!(Fixed::new(i64::MAX).whole(), i32::MAX);
    assert_eq!(Fixed::new(i64::MIN).whole(), i32::MIN);
    assert_eq!(Fixed::from_i32(i32::MIN).whole(), i32::MIN);
}

#[test]
fn vectors_points_and_sizes_divide_by_component() {
    let v = Vector2D::new(fx(20), fx(-10));
    assert_eq!(v.over(fx(2)), Vector2D::new(fx(10), fx(-5)));
    assert_eq!(Vector2D::zero(), Vector2D::new(Fixed::new(0), Fixed::new(0)));
    let p = Point2D::new(fx(30), fx(60));
    assert_eq!(p.over(fx(3)), Point2D::new(fx(10), fx(20)));
    let s = UintSize::new(800, 600).to_fixed();
    assert_eq!(s, Size2D { width: fx(800), height: fx(600) });
    assert_eq!(s.over(fx(2)), Size2D { width: fx(400), height: fx(300) });
}

#[test]
fn points_convert_between_the_grid_and_fixed_point() {
    assert_eq!(IntPoint::new(-1, 7).to_fixed(), Point2D::new(fx(-1), fx(7)));
    assert_eq!(
        Point2D::new(Fixed::new(1_900_000), Fixed::new(-1_900_000)).to_int(),
        IntPoint::new(1, -1)
    );
}
