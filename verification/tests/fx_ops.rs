//! Fixed-point scalar arithmetic: exact values, rounding, saturation.

use raytracer::fx::{Fx, FX_LIM, FX_SCALE};

const S: i64 = 1_048_576;

#[test]
fn scale_constant_is_two_to_the_twenty() {
    assert_eq!(FX_SCALE, S);
    assert_eq!(Fx::one().raw, S);
    assert_eq!(Fx::zero().raw, 0);
}

#[test]
fn from_int_exact() {
    assert_eq!(Fx::from_int(3).raw, 3 * S);
    assert_eq!(Fx::from_int(-7).raw, -7 * S);
    assert_eq!(Fx::from_int(0).raw, 0);
}

#[test]
fn from_ratio_truncates_toward_zero() {
    assert_eq!(Fx::from_ratio(1, 2).raw, S / 2);
    assert_eq!(Fx::from_ratio(-1, 2).raw, -(S / 2));
    // 2/3 = 699050.666... in raw units, truncated
    assert_eq!(Fx::from_ratio(2, 3).raw, 699050);
    assert_eq!(Fx::from_ratio(-2, 3).raw, -699050);
}

#[test]
fn plus_and_minus_saturate() {
    let big = Fx { raw: i64::MAX };
    assert_eq!(big.plus(big).raw, FX_LIM);
    assert_eq!(big.neg().minus(big).raw, -FX_LIM);
    assert_eq!(Fx::from_int(2).plus(Fx::from_int(3)).raw, 5 * S);
    assert_eq!(Fx::from_int(2).minus(Fx::from_int(3)).raw, -S);
}

#[test]
fn times_truncates_toward_zero() {
    assert_eq!(Fx::from_int(3).times(Fx::from_int(2)).raw, 6 * S);
    assert_eq!(Fx::from_ratio(1, 2).times(Fx::from_ratio(1, 2)).raw, S / 4);
    // 1/S * 1/S is below one raw unit: truncated to zero
    assert_eq!(Fx { raw: 1 }.times(Fx { raw: 1 }).raw, 0);
    // -3/S * 1/2 = -1.5 raw units, truncated toward zero to -1
    assert_eq!(Fx { raw: -3 }.times(Fx::from_ratio(1, 2)).raw, -1);
}

#[test]
fn divide_truncates_toward_zero() {
    // 1/3 = 349525.333... raw
    assert_eq!(Fx::from_int(1).divide(Fx::from_int(3)).raw, 349525);
    assert_eq!(Fx::from_int(-1).divide(Fx::from_int(3)).raw, -349525);
    assert_eq!(Fx::from_int(6).divide(Fx::from_int(2)).raw, 3 * S);
}

#[test]
fn sqrt_is_floor_square_root() {
    assert_eq!(Fx::from_int(4).sqrt().raw, 2 * S);
    assert_eq!(Fx::from_int(0).sqrt().raw, 0);
    // sqrt(2) = 1.41421356..., raw floor 1482910
    assert_eq!(Fx::from_int(2).sqrt().raw, 1482910);
    // negative inputs have no real root and are taken to zero
    assert_eq!(Fx::from_int(-1).sqrt().raw, 0);
}

#[test]
fn abs_and_neg() {
    assert_eq!(Fx::from_int(-5).abs().raw, 5 * S);
    assert_eq!(Fx::from_int(5).abs().raw, 5 * S);
    assert_eq!(Fx::from_int(5).neg().raw, -5 * S);
}

#[test]
fn trunc_i32_truncates_toward_zero_and_saturates() {
    assert_eq!(Fx::from_ratio(-5, 2).trunc_i32(), -2);
    assert_eq!(Fx::from_ratio(5, 2).trunc_i32(), 2);
    assert_eq!(Fx::from_int(7).trunc_i32(), 7);
    assert_eq!(Fx { raw: FX_LIM }.trunc_i32(), i32::MAX);
    assert_eq!(Fx { raw: -FX_LIM }.trunc_i32(), i32::MIN);
}
