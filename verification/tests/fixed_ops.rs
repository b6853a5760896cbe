//! Unit tests for the fixed-point scalar arithmetic.

use relsim::fixed::Fx;
use relsim::fixed::SCALE;

fn fx(raw: i64) -> Fx {
    Fx { raw }
}

#[test]
fn add_basic() {
    // 1.5 + 2.25 == 3.75
    assert_eq!(fx(98304).sat_add(fx(147456)), fx(245760));
}

#[test]
fn add_saturates_high() {
    assert_eq!(fx(i64::MAX).sat_add(fx(1)), fx(i64::MAX));
}

#[test]
fn sub_saturates_low() {
    assert_eq!(fx(i64::MIN).sat_sub(fx(1)), fx(i64::MIN));
}

#[test]
fn neg_of_min_saturates() {
    assert_eq!(fx(i64::MIN).neg(), fx(i64::MAX));
    assert_eq!(fx(-98304).neg(), fx(98304));
}

#[test]
fn mul_exact() {
    // 1.5 * 0.5 == 0.75
    assert_eq!(fx(98304).sat_mul(fx(32768)), fx(49152));
}

#[test]
fn mul_truncates_toward_zero() {
    // three raw steps halved truncate to one raw step, on both signs
    assert_eq!(fx(3).sat_mul(fx(32768)), fx(1));
    assert_eq!(fx(-3).sat_mul(fx(32768)), fx(-1));
}

#[test]
fn mul_sign() {
    assert_eq!(fx(-98304).sat_mul(fx(32768)), fx(-49152));
    assert_eq!(fx(-98304).sat_mul(fx(-32768)), fx(49152));
}

#[test]
fn mul_saturates() {
    assert_eq!(fx(i64::MAX).sat_mul(fx(i64::MAX)), fx(i64::MAX));
    assert_eq!(fx(i64::MAX).sat_mul(fx(i64::MIN)), fx(i64::MIN));
}

#[test]
fn div_basic() {
    // 3.0 / 2.0 == 1.5
    assert_eq!(fx(3 * SCALE).sat_div(fx(2 * SCALE)), fx(98304));
    // 1.0 / 3.0 truncates
    assert_eq!(fx(SCALE).sat_div(fx(3 * SCALE)), fx(21845));
}

#[test]
fn div_by_zero_is_zero() {
    assert_eq!(fx(12345).sat_div(fx(0)), fx(0));
}

#[test]
fn div_sign_truncates_toward_zero() {
    assert_eq!(fx(-SCALE).sat_div(fx(3 * SCALE)), fx(-21845));
}

#[test]
fn sqrt_exact_square() {
    // sqrt(4.0) == 2.0
    assert_eq!(fx(4 * SCALE).sqrt(), fx(2 * SCALE));
    // sqrt(225.0) == 15.0
    assert_eq!(fx(225 * SCALE).sqrt(), fx(15 * SCALE));
}

#[test]
fn sqrt_inexact_floor() {
    // sqrt(2.0) == floor(sqrt(2) * 65536) / 65536
    assert_eq!(fx(2 * SCALE).sqrt(), fx(92681));
}

#[test]
fn sqrt_of_nonpositive_is_zero() {
    assert_eq!(fx(0).sqrt(), fx(0));
    assert_eq!(fx(-4 * SCALE).sqrt(), fx(0));
}

#[test]
fn from_units() {
    assert_eq!(Fx::from_units(-3), fx(-3 * SCALE));
    assert_eq!(Fx::from_units(50), fx(50 * SCALE));
    assert_eq!(Fx::zero(), fx(0));
    assert_eq!(Fx::one(), fx(SCALE));
}
