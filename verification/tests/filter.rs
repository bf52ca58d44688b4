//! Tests of the biquad filter: frequency response at the extremes, the
//! excess signal, and the reset contract.

use penare::fixed::{Sample, ONE};
use penare::fxs::filter::{Biquad, FilterType};

fn s(x: f64) -> Sample {
    Sample::from_raw((x * ONE as f64).round() as i64)
}

fn f(x: Sample) -> f64 {
    x.raw as f64 / ONE as f64
}

fn make(ty: FilterType, freq: f64, q: f64, fs: f64) -> Biquad {
    let mut b = Biquad::default();
    b.filter_type = ty;
    b.freq = s(freq);
    b.q = s(q);
    b.sample_rate = s(fs);
    b.calculate_coeff();
    b
}

#[test]
fn lowpass_passes_dc_and_rejects_high_frequency() {
    // A low-pass at 20 Hz against a 48 kHz sample rate.
    let mut lp = make(FilterType::Lowpass, 20.0, 0.707, 48000.0);
    // A DC-like signal goes through at near-unity gain once settled...
    let mut out = Sample::zero();
    for _ in 0..6000 {
        let (o, _) = lp.process(s(0.5));
        out = o;
    }
    assert!((f(out) - 0.5).abs() < 0.02, "settled DC output = {}", f(out));
    // ... and its excess is then near zero.
    let (_, ex) = lp.process(s(0.5));
    assert!(f(ex).abs() < 0.03, "DC excess = {}", f(ex));

    // A signal alternating at the Nyquist rate is attenuated to near zero,
    // and its excess is nearly the whole input.
    let mut lp = make(FilterType::Lowpass, 20.0, 0.707, 48000.0);
    let mut out = Sample::zero();
    let mut ex = Sample::zero();
    let mut sign = 1.0;
    for _ in 0..6000 {
        let (o, e) = lp.process(s(0.5 * sign));
        out = o;
        ex = e;
        sign = -sign;
    }
    assert!(f(out).abs() < 0.01, "high-frequency output = {}", f(out));
    assert!((f(ex).abs() - 0.5).abs() < 0.01, "high-frequency excess = {}", f(ex));
}

#[test]
fn highpass_shows_the_opposite_response() {
    // A high-pass at 20 Hz: DC is rejected, the Nyquist-rate signal passes.
    let mut hp = make(FilterType::Highpass, 20.0, 0.707, 48000.0);
    let mut out = Sample::zero();
    for _ in 0..6000 {
        let (o, _) = hp.process(s(0.5));
        out = o;
    }
    assert!(f(out).abs() < 0.02, "settled DC output = {}", f(out));

    let mut hp = make(FilterType::Highpass, 20.0, 0.707, 48000.0);
    let mut out = Sample::zero();
    let mut sign = 1.0;
    for _ in 0..6000 {
        let (o, _) = hp.process(s(0.5 * sign));
        out = o;
        sign = -sign;
    }
    assert!((f(out).abs() - 0.5).abs() < 0.02, "high-frequency output = {}", f(out));
}

#[test]
fn reset_matches_a_fresh_filter() {
    let mut used = make(FilterType::Lowpass, 1000.0, 0.707, 48000.0);
    // Run some signal through to dirty the delay registers.
    for i in 0..100 {
        used.process(s((i % 7) as f64 * 0.1 - 0.3));
    }
    used.reset();
    let mut fresh = make(FilterType::Lowpass, 1000.0, 0.707, 48000.0);
    let (o1, e1) = used.process(s(0.42));
    let (o2, e2) = fresh.process(s(0.42));
    assert_eq!(o1.raw, o2.raw);
    assert_eq!(e1.raw, e2.raw);
}

#[test]
fn reset_keeps_coefficients() {
    let mut b = make(FilterType::Highpass, 500.0, 1.0, 44100.0);
    let a0 = b.a0.raw;
    let b1 = b.b1.raw;
    b.reset();
    assert_eq!(b.a0.raw, a0);
    assert_eq!(b.b1.raw, b1);
    assert_eq!(b.s1.raw, 0);
    assert_eq!(b.s2.raw, 0);
}

#[test]
fn default_q_encodes_the_reference_values() {
    // The filter's own default Q is 0.707; the parameter snapshot's is
    // sqrt(2)/2.  Both rounded to the nearest grid value.
    assert_eq!(Biquad::default().q.raw, (0.707f64 * ONE as f64).round() as i64);
    let p = penare::params::PenareParams::default();
    let butterworth = ((2.0f64).sqrt() / 2.0 * ONE as f64).round() as i64;
    assert_eq!(p.f1_q.raw, butterworth);
    assert_eq!(p.f2_q.raw, butterworth);
}

#[test]
fn recompute_is_idempotent() {
    let mut b = make(FilterType::Lowpass, 1234.0, 0.9, 48000.0);
    let coeffs = (b.a0.raw, b.a1.raw, b.a2.raw, b.b1.raw, b.b2.raw);
    b.calculate_coeff();
    assert_eq!(coeffs, (b.a0.raw, b.a1.raw, b.a2.raw, b.b1.raw, b.b2.raw));
}

#[test]
fn identity_coefficients_pass_everything() {
    let mut b = Biquad::default();
    b.set_coefficients(Sample::one(), Sample::zero(), Sample::zero(), Sample::zero(), Sample::zero());
    for x in [-1.0, -0.5, 0.0, 0.3, 1.0] {
        let (o, e) = b.process(s(x));
        assert_eq!(o.raw, s(x).raw);
        assert_eq!(e.raw, 0);
    }
}

#[test]
fn excess_is_input_minus_output() {
    let mut b = make(FilterType::Lowpass, 2000.0, 0.707, 48000.0);
    for i in 0..50 {
        let x = s((i % 11) as f64 * 0.05 - 0.25);
        let (o, e) = b.process(x);
        assert_eq!(e.raw, x.raw - o.raw);
    }
}
