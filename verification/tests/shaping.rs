//! Tests of the waveshaper curve sets.

use penare::clip::ClipType;
use penare::fixed::{Sample, ONE, SAT_LIMIT};
use penare::fxs::utils::hard_clip;
use penare::fxs::waveshaper::FunctionType as FxFunctionType;
use penare::waveshaper::FunctionType;

fn s(x: f64) -> Sample {
    Sample::from_raw((x * ONE as f64).round() as i64)
}

fn f(x: Sample) -> f64 {
    x.raw as f64 / ONE as f64
}

fn fmt(v: &[f64]) -> String {
    v.iter().map(|x| format!("{:6.2}", x)).collect::<Vec<_>>().join("")
}

#[test]
#[allow(unused_variables)]
fn clip_test() {
    let sample = (5..25).map(|x| x as f64 * 0.02).collect::<Vec<_>>();
    let threshold = s(0.4);

    let hard = sample.iter().map(|x| f(ClipType::Hard.apply(s(*x), threshold))).collect::<Vec<_>>();
    let scld = sample
        .iter()
        .map(|x| f(ClipType::Scaled.apply(s(*x), threshold)))
        .collect::<Vec<_>>();
    let ttanh = sample
        .iter()
        .map(|x| f(ClipType::TwoTanh.apply(s(*x), threshold)))
        .collect::<Vec<_>>();
    let recip = sample
        .iter()
        .map(|x| f(ClipType::Reciprocal.apply(s(*x), threshold)))
        .collect::<Vec<_>>();
    let softd = sample
        .iter()
        .map(|x| f(ClipType::Softdrive.apply(s(*x), threshold)))
        .collect::<Vec<_>>();
    let invth = sample
        .iter()
        .map(|x| f(ClipType::InvTwoTanh.apply(s(*x), threshold)))
        .collect::<Vec<_>>();

    println!("      {}", fmt(&sample));
    println!("Hard  {}", fmt(&hard));
    println!("Softd {}", fmt(&softd));
    println!("InvTh {}", fmt(&invth));
}

#[test]
#[allow(unused_variables)]
fn waveshaper_test() {
    let sample = (5..25).map(|x| x as f64 * 0.02).collect::<Vec<_>>();
    let threshold = s(0.4);

    let hard = sample
        .iter()
        .map(|x| f(FunctionType::Hard.apply(s(*x), threshold)))
        .collect::<Vec<_>>();
    let scld = sample
        .iter()
        .map(|x| f(FunctionType::Scaled.apply(s(*x), threshold)))
        .collect::<Vec<_>>();
    let ttanh = sample
        .iter()
        .map(|x| f(FunctionType::TwoTanh.apply(s(*x), threshold)))
        .collect::<Vec<_>>();
    let recip = sample
        .iter()
        .map(|x| f(FunctionType::Reciprocal.apply(s(*x), threshold)))
        .collect::<Vec<_>>();
    let softd = sample
        .iter()
        .map(|x| f(FunctionType::Softdrive.apply(s(*x), threshold)))
        .collect::<Vec<_>>();
    let invth = sample
        .iter()
        .map(|x| f(FunctionType::InvTwoTanh.apply(s(*x), threshold)))
        .collect::<Vec<_>>();

    println!("      {}", fmt(&sample));
    println!("Hard  {}", fmt(&hard));
    println!("Softd {}", fmt(&softd));
    println!("InvTh {}", fmt(&invth));
}

#[test]
#[allow(unused_variables)]
fn fxs_waveshaper_test() {
    let sample = (5..15).map(|x| x as f64 * 0.05).collect::<Vec<_>>();
    let t = s(0.5);

    let hard = sample
        .iter()
        .map(|x| f(FxFunctionType::HardClip.apply(s(*x), t)))
        .collect::<Vec<_>>();
    let test = sample
        .iter()
        .map(|x| f(FxFunctionType::ScaledClip.apply(s(*x), t)))
        .collect::<Vec<_>>();

    println!("     {}", fmt(&sample));
    println!("Hard {}", fmt(&hard));
    println!("Test {}", fmt(&test));
}

#[test]
fn hard_clip_bounds_and_identity() {
    let t = s(0.3);
    // Clamped into [-t, t] ...
    assert_eq!(hard_clip(s(0.5), t).raw, t.raw);
    assert_eq!(hard_clip(s(123.0), t).raw, t.raw);
    assert_eq!(hard_clip(s(-0.5), t).raw, -t.raw);
    assert_eq!(hard_clip(s(-123.0), t).raw, -t.raw);
    // ... and unchanged when already inside the bound.
    assert_eq!(hard_clip(s(0.25), t).raw, s(0.25).raw);
    assert_eq!(hard_clip(s(-0.25), t).raw, s(-0.25).raw);
    assert_eq!(hard_clip(s(0.0), t).raw, 0);
    assert_eq!(hard_clip(t, t).raw, t.raw);
}

#[test]
fn hard_clip_idempotent() {
    for x in [-2.0, -0.4, -0.1, 0.0, 0.1, 0.4, 2.0, 100.0] {
        let t = s(0.3);
        let once = hard_clip(s(x), t);
        let twice = hard_clip(once, t);
        assert_eq!(once.raw, twice.raw);
    }
}

#[test]
fn scaled_clip_stays_within_threshold() {
    let t = s(0.4);
    for x in [-3.0, -1.0, 0.0, 0.5, 1.0, 3.0] {
        let r = FxFunctionType::ScaledClip.apply(s(x), t);
        assert!(-t.raw <= r.raw && r.raw <= t.raw);
    }
}

#[test]
fn singlefold_reflects_above_threshold() {
    let t = s(0.5);
    // Below the fold point the curve is the identity.
    assert_eq!(FxFunctionType::Singlefold.apply(s(0.25), t).raw, s(0.25).raw);
    // Above it the magnitude is folded back: -|x| + 2|t|.
    assert_eq!(FxFunctionType::Singlefold.apply(s(0.75), t).raw, s(0.25).raw);
    assert_eq!(FxFunctionType::Singlefold.apply(s(-0.75), t).raw, -s(0.25).raw);
}

#[test]
fn floor_curve_quantizes_toward_zero() {
    // floor(0.7 * 4) / 4 = 2 / 4 = 0.5, exactly representable.
    let r = FxFunctionType::Floor.apply(s(0.7), Sample::from_int(4));
    assert_eq!(r.raw, ONE / 2);
    let r = FxFunctionType::Floor.apply(s(-0.7), Sample::from_int(4));
    assert_eq!(r.raw, -(ONE / 2));
}

#[test]
fn bitcrush_curve_exact_on_grid() {
    // b = 2^-1 = 0.5; 0.5 is on that grid, so it comes back exactly.
    let r = FxFunctionType::Bitcrush.apply(s(0.5), Sample::from_int(1));
    assert_eq!(r.raw, ONE / 2);
    // 0.3 rounds to the nearest multiple of 0.5.
    let r = FxFunctionType::Bitcrush.apply(s(0.3), Sample::from_int(1));
    assert_eq!(r.raw, ONE / 2);
}

#[test]
fn sqrt_curve_matches_exact_squares() {
    // sign(x) * sqrt(|x|) * t with t = 1: sqrt(4) = 2.
    let r = FxFunctionType::Sqrt.apply(Sample::from_int(4), Sample::one());
    assert_eq!(r.raw, 2 * ONE);
    let r = FxFunctionType::Sqrt.apply(Sample::from_int(-4), Sample::one());
    assert_eq!(r.raw, -2 * ONE);
}

#[test]
fn two_tanh_saturates() {
    // tanh(2x) * t approaches t for large x.
    let r = FxFunctionType::TwoTanh.apply(Sample::from_int(10), s(0.4));
    assert_eq!(r.raw, s(0.4).raw);
    // tanh(0) = 0.
    assert_eq!(FxFunctionType::TwoTanh.apply(Sample::zero(), s(0.4)).raw, 0);
}

#[test]
fn saturation_headroom_is_bounded() {
    let top = Sample::from_raw(SAT_LIMIT);
    assert_eq!(top.add(top).raw, SAT_LIMIT);
    assert_eq!(top.neg().sub(top).raw, -SAT_LIMIT);
    // Division by zero saturates toward the dividend's sign.
    assert_eq!(Sample::one().div(Sample::zero()).raw, SAT_LIMIT);
    assert_eq!(Sample::one().neg().div(Sample::zero()).raw, -SAT_LIMIT);
    assert_eq!(Sample::zero().div(Sample::zero()).raw, 0);
}
