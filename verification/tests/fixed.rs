use atum::fixed::{
    abs_wide, clamp_symmetric, diff_products, div_wide, fx_div, fx_mul, is_positive, isqrt,
    mul_div, sat_add, sat_mul, sat_neg, sat_sub, saturate, sum_products, SCALE,
};
use atum::units::{
    Angle, AngularVelocity, Length, Time, Velocity, FULL_TURN, HALF_TURN,
};
use atum::utils::{wrap, wrapped};

#[test]
fn scale_is_one_million() {
    assert_eq!(SCALE, 1_000_000);
}

#[test]
fn saturate_pins_to_the_range() {
    assert_eq!(saturate(5), 5);
    assert_eq!(saturate(i64::MAX as i128 + 1), i64::MAX);
    assert_eq!(saturate(i64::MIN as i128 - 1), i64::MIN);
    assert_eq!(saturate(i128::MAX), i64::MAX);
    assert_eq!(saturate(i128::MIN), i64::MIN);
}

#[test]
fn saturating_sums_and_differences() {
    assert_eq!(sat_add(2, 3), 5);
    assert_eq!(sat_add(i64::MAX, 1), i64::MAX);
    assert_eq!(sat_add(i64::MIN, -1), i64::MIN);
    assert_eq!(sat_sub(2, 3), -1);
    assert_eq!(sat_sub(i64::MIN, 1), i64::MIN);
    assert_eq!(sat_sub(i64::MAX, -1), i64::MAX);
    assert_eq!(sat_neg(7), -7);
    assert_eq!(sat_neg(i64::MIN), i64::MAX);
    assert_eq!(sat_mul(3, -4), -12);
    assert_eq!(sat_mul(i64::MAX, 2), i64::MAX);
    assert_eq!(sat_mul(i64::MIN, 2), i64::MIN);
}

#[test]
fn abs_wide_handles_the_least_count() {
    assert_eq!(abs_wide(-3), 3);
    assert_eq!(abs_wide(3), 3);
    assert_eq!(abs_wide(i64::MIN), 9_223_372_036_854_775_808i128);
}

#[test]
fn zero_counts_as_positive() {
    assert!(is_positive(0));
    assert!(is_positive(1));
    assert!(!is_positive(-1));
}

#[test]
fn division_rounds_toward_zero() {
    assert_eq!(div_wide(7, 2), 3);
    assert_eq!(div_wide(-7, 2), -3);
    assert_eq!(div_wide(7, -2), -3);
    assert_eq!(div_wide(-7, -2), 3);
    assert_eq!(div_wide(0, 5), 0);
}

#[test]
fn mul_div_is_exact_before_rounding() {
    assert_eq!(mul_div(10, 3, 4), 7);
    assert_eq!(mul_div(-10, 3, 4), -7);
    assert_eq!(mul_div(i64::MAX, i64::MAX, i64::MAX), i64::MAX);
    assert_eq!(mul_div(i64::MAX, 4, 2), i64::MAX);
    assert_eq!(mul_div(i64::MIN, 4, 2), i64::MIN);
}

#[test]
fn fixed_point_product_and_quotient() {
    // 1.5 * 2.5 = 3.75
    assert_eq!(fx_mul(1_500_000, 2_500_000), 3_750_000);
    // -0.000001 * 0.5 rounds toward zero
    assert_eq!(fx_mul(-1, 500_000), 0);
    // 1 / 3 = 0.333333
    assert_eq!(fx_div(1_000_000, 3_000_000), 333_333);
    assert_eq!(fx_div(-1_000_000, 3_000_000), -333_333);
    // a quotient that leaves the range saturates
    assert_eq!(fx_div(i64::MAX, 1), i64::MAX);
    assert_eq!(fx_div(i64::MAX, -1), i64::MIN);
}

#[test]
fn sums_and_differences_of_products() {
    assert_eq!(sum_products(2, 3, 4, 5, 1), 26);
    assert_eq!(diff_products(2, 3, 4, 5, 1), -14);
    assert_eq!(sum_products(2, 3, 4, 5, 4), 6);
    assert_eq!(diff_products(2, 3, 4, 5, 4), -3);
    // the one sum that does not fit in 128 bits
    assert_eq!(sum_products(i64::MIN, i64::MIN, i64::MIN, i64::MIN, 1), i64::MAX);
    assert_eq!(sum_products(i64::MIN, i64::MIN, i64::MIN, i64::MIN, i64::MAX), i64::MAX);
    assert_eq!(diff_products(i64::MIN, i64::MIN, i64::MIN, i64::MAX, 1), i64::MAX);
    assert_eq!(diff_products(i64::MIN, i64::MAX, i64::MIN, i64::MIN, 1), i64::MIN);
}

#[test]
fn clamp_symmetric_holds_to_the_bound() {
    assert_eq!(clamp_symmetric(5, 10), 5);
    assert_eq!(clamp_symmetric(15, 10), 10);
    assert_eq!(clamp_symmetric(-15, 10), -10);
    assert_eq!(clamp_symmetric(-15, 0), 0);
    assert_eq!(clamp_symmetric(3, -1), 0);
    assert_eq!(clamp_symmetric(i64::MIN, i64::MAX), -i64::MAX);
}

#[test]
fn isqrt_rounds_down() {
    assert_eq!(isqrt(0), 0);
    assert_eq!(isqrt(1), 1);
    assert_eq!(isqrt(3), 1);
    assert_eq!(isqrt(4), 2);
    assert_eq!(isqrt(24), 4);
    assert_eq!(isqrt(25), 5);
    assert_eq!(isqrt(1_000_000_000_000), 1_000_000);
    assert_eq!(isqrt(u128::MAX), u64::MAX);
    assert_eq!(isqrt((u64::MAX as u128) * (u64::MAX as u128) - 1), u64::MAX - 1);
}

#[test]
fn lengths_convert_exactly() {
    assert_eq!(Length::zero().um, 0);
    assert_eq!(Length::from_micrometers(12).as_micrometers(), 12);
    assert_eq!(Length::from_inches(36).um, 914_400);
    assert_eq!(Length::from_millimeters(3).um, 3_000);
    assert_eq!(Length::from_meters(2).um, 2_000_000);
    assert_eq!(Length::from_tiles(1).um, 609_600);
    assert_eq!(Length::from_inches(36).as_inches(), 36);
    assert_eq!(Length::from_micrometers(25_399).as_inches(), 0);
    assert_eq!(Length::from_micrometers(-25_401).as_inches(), -1);
    assert_eq!(Length::from_micrometers(1_999).as_millimeters(), 1);
    assert_eq!(Length::from_micrometers(2_500_000).as_meters(), 2);
    assert_eq!(Length::from_tiles(3).as_tiles(), 3);
    assert_eq!(Length::from_inches(i64::MAX).um, i64::MAX);
}

#[test]
fn saturated_quantities_read_as_infinite() {
    assert!(Length::from_inches(i64::MAX).is_infinite());
    assert!(Length::from_micrometers(i64::MIN).is_infinite());
    assert!(!Length::from_inches(1).is_infinite());
    assert!(Angle::from_microradians(i64::MAX).is_infinite());
    assert!(!Angle::zero().is_infinite());
}

#[test]
fn angles_convert() {
    assert_eq!(Angle::half_turn().urad, HALF_TURN);
    assert_eq!(Angle::from_degrees(180).urad, 3_141_593);
    assert_eq!(Angle::from_degrees(360).urad, FULL_TURN);
    assert_eq!(Angle::from_degrees(90).urad, 1_570_796);
    assert_eq!(Angle::from_degrees(-90).urad, -1_570_796);
    assert_eq!(Angle::from_degrees(1).urad, 17_453);
    assert_eq!(Angle::from_radians(2).urad, 2_000_000);
    assert_eq!(Angle::from_radians(-2).as_radians(), -2);
    assert_eq!(Angle::from_microradians(-1_999_999).as_radians(), -1);
    assert_eq!(Angle::from_revolutions(2).urad, 12_566_372);
    assert_eq!(Angle::from_degrees(180).as_degrees(), 180);
    assert_eq!(Angle::from_microradians(1_570_796).as_degrees(), 89);
    assert_eq!(Angle::from_revolutions(3).as_revolutions(), 3);
    assert_eq!(Angle::from_microradians(5).as_microradians(), 5);
}

#[test]
fn velocities_and_times_convert() {
    assert_eq!(Velocity::zero().um_per_s, 0);
    assert_eq!(Velocity::from_micrometers_per_second(4).um_per_s, 4);
    assert_eq!(Velocity::from_inches_per_second(2).um_per_s, 50_800);
    assert_eq!(AngularVelocity::zero().urad_per_s, 0);
    assert_eq!(AngularVelocity::from_microradians_per_second(9).urad_per_s, 9);
    assert_eq!(AngularVelocity::from_degrees_per_second(180).urad_per_s, HALF_TURN);
    assert_eq!(Time::zero().us, 0);
    assert_eq!(Time::from_micros(7).us, 7);
    assert_eq!(Time::from_millis(10).us, 10_000);
    assert_eq!(Time::from_secs(2).us, 2_000_000);
    assert_eq!(Time::from_secs(i64::MAX).us, i64::MAX);
}

#[test]
fn quantities_add_subtract_and_negate() {
    let a = Length::from_micrometers(5);
    let b = Length::from_micrometers(7);
    assert_eq!(a + b, Length::from_micrometers(12));
    assert_eq!(a - b, Length::from_micrometers(-2));
    assert_eq!(-a, Length::from_micrometers(-5));
    assert_eq!(Length::from_micrometers(i64::MAX) + b, Length::from_micrometers(i64::MAX));
    assert_eq!(-Length::from_micrometers(i64::MIN), Length::from_micrometers(i64::MAX));
    let h = Angle::from_degrees(90);
    assert_eq!(h + h, Angle::from_microradians(2 * 1_570_796));
    assert_eq!(h - h, Angle::zero());
    assert_eq!(-h, Angle::from_degrees(-90));
    let v = Velocity::from_micrometers_per_second(3);
    assert_eq!(v + v - v, v);
    assert_eq!(-v, Velocity::from_micrometers_per_second(-3));
    let w = AngularVelocity::from_microradians_per_second(3);
    assert_eq!(w + w - w, w);
    assert_eq!(-w, AngularVelocity::from_microradians_per_second(-3));
    let t = Time::from_millis(3);
    assert_eq!(t + t, Time::from_millis(6));
    assert_eq!(t - t, Time::zero());
    assert_eq!(-t, Time::from_millis(-3));
}

#[test]
fn wrap_lands_in_the_half_open_interval() {
    assert_eq!(wrapped(0), 0);
    assert_eq!(wrapped(HALF_TURN), HALF_TURN);
    assert_eq!(wrapped(-HALF_TURN), HALF_TURN);
    assert_eq!(wrapped(HALF_TURN + 1), -HALF_TURN + 1);
    assert_eq!(wrapped(-HALF_TURN + 1), -HALF_TURN + 1);
    assert_eq!(wrapped(FULL_TURN), 0);
    assert_eq!(wrapped(-FULL_TURN), 0);
    assert_eq!(wrapped(3 * FULL_TURN + 5), 5);
    assert_eq!(wrapped(-3 * FULL_TURN - 5), -5);
    assert_eq!(wrap(Angle::from_degrees(270)).urad, Angle::from_degrees(270).urad - FULL_TURN);
    assert_eq!(Angle::from_microradians(FULL_TURN + 9).wrap().urad, 9);
}

#[test]
fn wrap_is_in_range_at_the_ends_of_the_range() {
    let hi = wrapped(i64::MAX);
    let lo = wrapped(i64::MIN);
    assert!(-HALF_TURN < hi && hi <= HALF_TURN);
    assert!(-HALF_TURN < lo && lo <= HALF_TURN);
    assert_eq!((i64::MAX as i128 - hi as i128).rem_euclid(FULL_TURN as i128), 0);
    assert_eq!((i64::MIN as i128 - lo as i128).rem_euclid(FULL_TURN as i128), 0);
}
