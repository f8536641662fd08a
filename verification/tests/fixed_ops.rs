//! The fixed-point scalar primitives: rounding, interpolation, the smoothstep
//! curve, the sine approximation and the integer square root.

use wavefield::fixed::{
    abs_fx, cos_fx, fdiv, floor_units, fract, isqrt128, isqrt64, mix, mul_fx, sin_fx, smoothstep,
    HALF_PI_FX, PI_FX, SCALE,
};

#[test]
fn mul_fx_rounds_toward_negative_infinity() {
    assert_eq!(mul_fx(2_500_000, 2_000_000), 5_000_000);
    assert_eq!(mul_fx(-2_500_000, 2_000_000), -5_000_000);
    assert_eq!(mul_fx(1, 1), 0);
    assert_eq!(mul_fx(-1, 1), -1);
    assert_eq!(mul_fx(999_999, 1), 0);
    assert_eq!(mul_fx(x(1), x(1)), x(1));
}

fn x(units: i64) -> i64 {
    units * SCALE
}

#[test]
fn fract_is_always_in_unit_range() {
    assert_eq!(fract(1_250_000), 250_000);
    assert_eq!(fract(-1_250_000), 750_000);
    assert_eq!(fract(-1), 999_999);
    assert_eq!(fract(0), 0);
    assert_eq!(fract(SCALE), 0);
}

#[test]
fn floor_units_rounds_down() {
    assert_eq!(floor_units(1_250_000), 1);
    assert_eq!(floor_units(-1_250_000), -2);
    assert_eq!(floor_units(-1), -1);
    assert_eq!(floor_units(999_999), 0);
}

#[test]
fn fdiv_is_floor_division() {
    assert_eq!(fdiv(7, 2), 3);
    assert_eq!(fdiv(-7, 2), -4);
    assert_eq!(fdiv(-8, 2), -4);
    assert_eq!(fdiv(0, 5), 0);
}

#[test]
fn mix_is_exact_at_the_endpoints() {
    assert_eq!(mix(123_456, -654_321, 0), 123_456);
    assert_eq!(mix(123_456, -654_321, SCALE), -654_321);
    assert_eq!(mix(200, 800, 250_000), 350);
    assert_eq!(mix(-SCALE, SCALE, 500_000), 0);
}

#[test]
fn smoothstep_unit_values() {
    assert_eq!(smoothstep(0, SCALE, 0), 0);
    assert_eq!(smoothstep(0, SCALE, SCALE), SCALE);
    assert_eq!(smoothstep(0, SCALE, 250_000), 156_250);
    assert_eq!(smoothstep(0, SCALE, 500_000), 500_000);
    // Clamped outside the edges.
    assert_eq!(smoothstep(0, SCALE, -123_456), 0);
    assert_eq!(smoothstep(0, SCALE, 2 * SCALE), SCALE);
}

#[test]
fn smoothstep_falling_edges_mirror_the_rising_curve() {
    assert_eq!(smoothstep(SCALE, 0, 250_000), 843_750);
    assert_eq!(smoothstep(SCALE, 0, 0), SCALE);
    assert_eq!(smoothstep(SCALE, 0, SCALE), 0);
}

#[test]
fn smoothstep_is_monotone_on_the_unit_interval() {
    let samples = [
        0, 100_000, 250_000, 400_000, 500_000, 700_000, 850_000, 999_999, SCALE,
    ];
    let expected = [
        0, 28_000, 156_250, 352_000, 500_000, 784_000, 939_250, 999_999, SCALE,
    ];
    let mut prev = -1;
    for (xv, e) in samples.iter().zip(expected.iter()) {
        let v = smoothstep(0, SCALE, *xv);
        assert_eq!(v, *e);
        assert!(v >= prev);
        prev = v;
    }
}

#[test]
fn sine_peaks_are_exact() {
    assert_eq!(sin_fx(0), 0);
    assert_eq!(sin_fx(HALF_PI_FX), SCALE);
    assert_eq!(sin_fx(PI_FX), 0);
    assert_eq!(sin_fx(PI_FX + HALF_PI_FX), -SCALE);
    assert_eq!(sin_fx(-HALF_PI_FX), -SCALE);
    assert_eq!(cos_fx(0), SCALE);
    assert_eq!(cos_fx(PI_FX), -SCALE);
}

#[test]
fn sine_sample_values() {
    assert_eq!(sin_fx(1_000_000), 867_954);
    assert_eq!(sin_fx(2_000_000), 925_340);
    assert_eq!(sin_fx(-2_500_000), -650_069);
    for k in -20i64..20 {
        let v = sin_fx(k * 777_777);
        assert!(-SCALE <= v && v <= SCALE);
    }
}

#[test]
fn abs_fx_magnitude() {
    assert_eq!(abs_fx(-123), 123);
    assert_eq!(abs_fx(123), 123);
    assert_eq!(abs_fx(0), 0);
}

#[test]
fn integer_square_roots() {
    assert_eq!(isqrt64(0), 0);
    assert_eq!(isqrt64(1), 1);
    assert_eq!(isqrt64(2), 1);
    assert_eq!(isqrt64(3), 1);
    assert_eq!(isqrt64(4), 2);
    assert_eq!(isqrt64(15), 3);
    assert_eq!(isqrt64(16), 4);
    assert_eq!(isqrt64(999_999_999_999), 999_999);
    assert_eq!(isqrt64(1u64 << 63), 3_037_000_499);
    assert_eq!(isqrt128(0), 0);
    assert_eq!(isqrt128((1u128) << 63), 3_037_000_499);
    assert_eq!(isqrt128(100_000_000_000_000_000_000u128), 10_000_000_000);
}
