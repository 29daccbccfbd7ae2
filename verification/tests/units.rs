use particles::units::{
    pixel_of, FULL_SPEED, JITTER_LIMIT, MARGIN_PIXELS, NUDGE, UNITS_PER_PIXEL,
};

#[test]
fn scale_puts_jitter_at_a_twentieth_and_nudge_at_a_five_hundredth() {
    assert_eq!(UNITS_PER_PIXEL, 500_000);
    assert_eq!(FULL_SPEED as i64, UNITS_PER_PIXEL);
    assert_eq!(JITTER_LIMIT as i64 * 20, UNITS_PER_PIXEL);
    assert_eq!(NUDGE as i64 * 500, UNITS_PER_PIXEL);
    assert_eq!(MARGIN_PIXELS, 15);
}

#[test]
fn pixel_of_inside_a_pixel() {
    assert_eq!(pixel_of(0), 0);
    assert_eq!(pixel_of(1), 0);
    assert_eq!(pixel_of(499_999), 0);
    assert_eq!(pixel_of(500_000), 1);
    assert_eq!(pixel_of(1_250_000), 2);
}

#[test]
fn pixel_of_rounds_negative_coordinates_down() {
    assert_eq!(pixel_of(-1), -1);
    assert_eq!(pixel_of(-499_999), -1);
    assert_eq!(pixel_of(-500_000), -1);
    assert_eq!(pixel_of(-500_001), -2);
    assert_eq!(pixel_of(-7_500_000), -15);
}

#[test]
fn pixel_of_agrees_with_floating_point_floor() {
    for units in [-7_500_001i64, -123_456, -1, 0, 1, 987_654_321, 400_000_000_000] {
        let expected = (units as f64 / UNITS_PER_PIXEL as f64).floor() as i64;
        assert_eq!(pixel_of(units), expected);
    }
}

#[test]
fn pixel_of_extremes() {
    assert_eq!(pixel_of(i64::MAX), i64::MAX / 500_000);
    assert_eq!(pixel_of(i64::MIN), i64::MIN / 500_000 - 1);
}
