//! Tests of the mixing utilities, the rectifier and the fixed-point math
//! helpers.

use penare::fixed::{Sample, HALF, ONE};
use penare::fxs::rectify::RectifyType;
use penare::fxs::utils::{mix_between, mix_in};
use penare::math;

fn s(x: f64) -> Sample {
    Sample::from_raw((x * ONE as f64).round() as i64)
}

#[test]
fn mix_between_endpoints() {
    let a = s(0.7);
    let b = s(-0.2);
    assert_eq!(mix_between(a, b, Sample::zero()).raw, a.raw);
    assert_eq!(mix_between(a, b, Sample::one()).raw, b.raw);
}

#[test]
fn mix_between_is_linear_in_between() {
    // Halfway between 0 and 1 is exactly one half.
    assert_eq!(mix_between(Sample::zero(), Sample::one(), Sample { raw: HALF }).raw, HALF);
    // A quarter of the way from 0 to 1.
    assert_eq!(mix_between(Sample::zero(), Sample::one(), s(0.25)).raw, s(0.25).raw);
    // Between equal values the mix changes nothing beyond the one raw
    // step that the two truncated products may lose.
    let a = s(0.3);
    assert!((mix_between(a, a, s(0.37)).raw - a.raw).abs() <= 1);
}

#[test]
fn mix_in_adds_scaled() {
    // 1 + 1 * 0.5 = 1.5
    assert_eq!(mix_in(Sample::one(), Sample::one(), Sample { raw: HALF }).raw, ONE + HALF);
    // Ratio zero adds nothing.
    assert_eq!(mix_in(s(0.4), s(0.9), Sample::zero()).raw, s(0.4).raw);
}

#[test]
fn rectify_half_and_full_wave() {
    assert_eq!(RectifyType::HalfWave.apply(s(0.5)).raw, s(0.5).raw);
    assert_eq!(RectifyType::HalfWave.apply(s(-0.5)).raw, 0);
    assert!(RectifyType::HalfWave.apply(s(-123.0)).raw >= 0);
    assert_eq!(RectifyType::FullWave.apply(s(0.5)).raw, s(0.5).raw);
    assert_eq!(RectifyType::FullWave.apply(s(-0.5)).raw, s(0.5).raw);
    assert_eq!(RectifyType::FullWave.apply(Sample::zero()).raw, 0);
}

#[test]
fn signum_of_zero_counts_as_positive() {
    assert_eq!(Sample::zero().signum().raw, ONE);
    assert_eq!(s(0.1).signum().raw, ONE);
    assert_eq!(s(-0.1).signum().raw, -ONE);
}

#[test]
fn floor_and_round_match_ieee_conventions() {
    assert_eq!(s(1.5).floor().raw, ONE);
    assert_eq!(s(-1.5).floor().raw, -2 * ONE);
    assert_eq!(s(1.5).round().raw, 2 * ONE);
    assert_eq!(s(-1.5).round().raw, -2 * ONE);
    assert_eq!(s(1.4).round().raw, ONE);
    assert_eq!(s(-1.4).round().raw, -ONE);
}

#[test]
fn exp2_exact_on_whole_octaves() {
    assert_eq!(math::exp2(Sample::zero()).raw, ONE);
    assert_eq!(math::exp2(Sample::from_int(1)).raw, 2 * ONE);
    assert_eq!(math::exp2(Sample::from_int(3)).raw, 8 * ONE);
    assert_eq!(math::exp2(Sample::from_int(-1)).raw, HALF);
    assert_eq!(math::exp2(Sample::from_int(-2)).raw, ONE / 4);
}

#[test]
fn exp2_fraction_is_close() {
    // 2^0.5 = 1.41421...; the cubic is well within one percent.
    let r = math::exp2(Sample { raw: HALF }).raw as f64 / ONE as f64;
    assert!((r - 1.41421356).abs() < 0.01, "exp2(0.5) = {}", r);
}

#[test]
fn log2_exact_on_whole_octaves() {
    assert_eq!(math::log2(Sample::one()).raw, 0);
    assert_eq!(math::log2(Sample::from_int(2)).raw, ONE);
    assert_eq!(math::log2(Sample::from_int(8)).raw, 3 * ONE);
    assert_eq!(math::log2(Sample { raw: HALF }).raw, -ONE);
}

#[test]
fn gain_to_db_matches_reference_points() {
    // Unity gain is zero decibels, exactly.
    assert_eq!(math::gain_to_db(Sample::one()).raw, 0);
    // A doubling is 20 log10(2) = 6.0206 dB.
    let db = math::gain_to_db(Sample::from_int(2)).raw as f64 / ONE as f64;
    assert!((db - 6.0206).abs() < 0.01, "gain_to_db(2) = {}", db);
    // Halving is -6.0206 dB.
    let db = math::gain_to_db(Sample { raw: HALF }).raw as f64 / ONE as f64;
    assert!((db + 6.0206).abs() < 0.05, "gain_to_db(0.5) = {}", db);
    // Silence is floored instead of diverging.
    let db = math::gain_to_db(Sample::zero()).raw as f64 / ONE as f64;
    assert!((db + 100.0).abs() < 0.5, "gain_to_db(0) = {}", db);
}

#[test]
fn sqrt_exact_on_squares() {
    assert_eq!(math::sqrt(Sample::from_int(4)).raw, 2 * ONE);
    assert_eq!(math::sqrt(Sample::from_int(9)).raw, 3 * ONE);
    assert_eq!(math::sqrt(Sample::one()).raw, ONE);
    assert_eq!(math::sqrt(Sample::zero()).raw, 0);
    assert_eq!(math::sqrt(Sample::from_int(-4)).raw, 0);
    let r = math::sqrt(Sample::from_int(2)).raw as f64 / ONE as f64;
    assert!((r - 1.41421356).abs() < 1e-8, "sqrt(2) = {}", r);
}

#[test]
fn sin_reference_points() {
    assert_eq!(math::sin(Sample::zero()).raw, 0);
    let r = math::sin(Sample { raw: penare::math::HALF_PI }).raw as f64 / ONE as f64;
    assert!((r - 1.0).abs() < 0.01, "sin(pi/2) = {}", r);
    let r = math::sin(Sample { raw: penare::math::PI }).raw as f64 / ONE as f64;
    assert!(r.abs() < 0.01, "sin(pi) = {}", r);
    // Odd symmetry.
    let a = math::sin(s(0.7)).raw;
    let b = math::sin(s(-0.7)).raw;
    assert_eq!(a, -b);
}

#[test]
fn tanh_reference_points() {
    assert_eq!(math::tanh(Sample::zero()).raw, 0);
    assert_eq!(math::tanh(Sample::from_int(10)).raw, ONE);
    assert_eq!(math::tanh(Sample::from_int(-10)).raw, -ONE);
    let r = math::tanh(Sample::one()).raw as f64 / ONE as f64;
    assert!((r - 0.76159).abs() < 0.02, "tanh(1) = {}", r);
    // Odd symmetry.
    assert_eq!(math::tanh(s(0.6)).raw, -math::tanh(s(-0.6)).raw);
}

#[test]
fn rem_follows_the_dividend_sign() {
    // 0.7 % 0.5 = 0.2, -0.7 % 0.5 = -0.2 (truncated remainder).
    let a = s(0.7).rem(s(0.5)).raw as f64 / ONE as f64;
    assert!((a - 0.2).abs() < 1e-8);
    let b = s(-0.7).rem(s(0.5)).raw as f64 / ONE as f64;
    assert!((b + 0.2).abs() < 1e-8);
    // The remainder by zero is defined as zero.
    assert_eq!(s(0.7).rem(Sample::zero()).raw, 0);
}
