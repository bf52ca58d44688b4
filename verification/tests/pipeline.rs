//! End-to-end tests of the signal pipeline.

use penare::fixed::{Sample, ONE};
use penare::fxs::waveshaper::FunctionType;
use penare::params::{PenareParams, TriState};
use penare::Penare;

fn s(x: f64) -> Sample {
    Sample::from_raw((x * ONE as f64).round() as i64)
}

/// A pipeline whose four filters pass every signal through unchanged, so
/// the tests below see the distortion chain in isolation.
fn identity_pipeline() -> Penare {
    let mut p = Penare::default();
    for i in 0..2 {
        p.f1[i].set_coefficients(
            Sample::one(),
            Sample::zero(),
            Sample::zero(),
            Sample::zero(),
            Sample::zero(),
        );
        p.f2[i].set_coefficients(
            Sample::one(),
            Sample::zero(),
            Sample::zero(),
            Sample::zero(),
            Sample::zero(),
        );
    }
    p
}

/// All toggles off, unity gains and full wet mixes, hard clips at 0.3 on
/// both polarities.
fn hard_clip_params() -> PenareParams {
    let mut params = PenareParams::default();
    params.output_clip = false;
    params.pos_function_param = s(0.3);
    params.neg_function_param = s(0.3);
    params
}

#[test]
fn end_to_end_hard_clip_scenario() {
    let mut p = identity_pipeline();
    let params = hard_clip_params();
    let input = [0.0, 0.5, -0.5, 1.0, -1.0];
    let mut left: Vec<Sample> = input.iter().map(|x| s(*x)).collect();
    let mut right: Vec<Sample> = input.iter().map(|x| s(*x)).collect();
    p.process(&mut left, &mut right, &params);
    let expected = [s(0.0), s(0.3), s(-0.3), s(0.3), s(-0.3)];
    for i in 0..5 {
        assert_eq!(left[i].raw, expected[i].raw, "left sample {}", i);
        assert_eq!(right[i].raw, expected[i].raw, "right sample {}", i);
    }
}

#[test]
fn excess_bypass_of_pass_all_filters_is_silence() {
    let mut p = identity_pipeline();
    let mut params = hard_clip_params();
    params.excess_bypass = true;
    let input = [0.0, 0.5, -0.5, 1.0, -1.0];
    let mut left: Vec<Sample> = input.iter().map(|x| s(*x)).collect();
    let mut right: Vec<Sample> = input.iter().map(|x| s(*x)).collect();
    p.process(&mut left, &mut right, &params);
    for i in 0..5 {
        assert_eq!(left[i].raw, 0, "left sample {}", i);
        assert_eq!(right[i].raw, 0, "right sample {}", i);
    }
}

#[test]
fn copy_positive_applies_positive_curve_to_negative_samples() {
    let mut p = identity_pipeline();
    let mut params = hard_clip_params();
    // The two polarities get different thresholds; the copy selector
    // forces the positive side's settings onto everything.
    params.pos_function_param = s(0.3);
    params.neg_function_param = s(0.8);
    params.copy_function = TriState::Pos;
    let out = p.process_sample(0, s(-1.0), &params);
    // The negative sample was clipped at the positive side's 0.3, not 0.8.
    assert_eq!(out.raw, s(-0.3).raw);

    // With the selector off, the same sample uses the negative side.
    let mut p = identity_pipeline();
    params.copy_function = TriState::Off;
    let out = p.process_sample(0, s(-1.0), &params);
    assert_eq!(out.raw, s(-0.8).raw);

    // And use-negative-for-both applies the negative side to positives.
    let mut p = identity_pipeline();
    params.copy_function = TriState::Neg;
    let out = p.process_sample(0, s(1.0), &params);
    assert_eq!(out.raw, s(0.8).raw);
}

#[test]
fn dry_wet_mix_at_zero_returns_the_input() {
    let mut p = identity_pipeline();
    let mut params = hard_clip_params();
    params.mix = Sample::zero();
    let out = p.process_sample(0, s(0.9), &params);
    assert_eq!(out.raw, s(0.9).raw);
}

#[test]
fn final_clip_bounds_the_output() {
    let mut p = identity_pipeline();
    let mut params = hard_clip_params();
    // Disable the shaping stage (mix it fully dry) and gain the signal up.
    params.function_mix = Sample::zero();
    params.input_gain = Sample::from_int(4);
    params.output_clip = true;
    params.output_clip_threshold = s(1.0);
    let out = p.process_sample(0, s(0.9), &params);
    assert_eq!(out.raw, s(1.0).raw);
}

#[test]
fn flip_inverts_the_waveshaped_signal() {
    let mut p = identity_pipeline();
    let mut params = hard_clip_params();
    params.flip = true;
    let out = p.process_sample(0, s(1.0), &params);
    assert_eq!(out.raw, s(-0.3).raw);
}

#[test]
fn pre_gain_decides_the_polarity_routing() {
    // A negative gain makes a positive input negative before the
    // waveshaper, so the negative side's parameters must apply.
    let mut p = identity_pipeline();
    let mut params = hard_clip_params();
    params.input_gain = Sample::from_int(-1);
    params.pos_function_param = s(0.3);
    params.neg_function_param = s(0.8);
    let out = p.process_sample(0, s(1.0), &params);
    assert_eq!(out.raw, s(-0.8).raw);
}

#[test]
fn rectify_stage_full_wave() {
    let mut p = identity_pipeline();
    let mut params = hard_clip_params();
    params.rectify = true;
    params.rectify_type = penare::fxs::rectify::RectifyType::FullWave;
    params.rectify_mix = Sample::one();
    params.rectify_mix_in = Sample::zero();
    // Shaping threshold high enough not to clip.
    params.pos_function_param = s(2.0);
    params.neg_function_param = s(2.0);
    let out = p.process_sample(0, s(-0.5), &params);
    assert_eq!(out.raw, s(0.5).raw);
}

#[test]
fn crush_stage_quantizes() {
    let mut p = identity_pipeline();
    let mut params = hard_clip_params();
    params.crush = true;
    params.crush_type = penare::fxs::crusher::CrushType::Floor;
    params.crush_param = Sample::from_int(4);
    params.crush_mix = Sample::one();
    params.crush_mix_in = Sample::zero();
    params.pos_function_param = s(2.0);
    params.neg_function_param = s(2.0);
    // floor(0.7 * 4) / 4 = 0.5.
    let out = p.process_sample(0, s(0.7), &params);
    assert_eq!(out.raw, s(0.5).raw);
}

#[test]
fn excess_mix_restores_a_split_signal() {
    // With unity excess mix, what the filters reject is added back scaled
    // by the ratio twice; with an identity filter the excess is zero, so
    // the stage changes nothing whatever the ratio.
    let mut p = identity_pipeline();
    let mut params = hard_clip_params();
    params.excess_mix = Sample::one();
    params.pos_function_param = s(2.0);
    params.neg_function_param = s(2.0);
    let out = p.process_sample(0, s(0.4), &params);
    assert_eq!(out.raw, s(0.4).raw);
}

#[test]
fn reset_restores_the_first_sample_output() {
    let mut p = Penare::default();
    let params = PenareParams::default();
    p.initialize(Sample::from_int(48000), &params);
    let mut left: Vec<Sample> = (0..64).map(|i| s((i % 5) as f64 * 0.1 - 0.2)).collect();
    let mut right = left.clone();
    p.process(&mut left, &mut right, &params);

    let mut fresh = Penare::default();
    fresh.initialize(Sample::from_int(48000), &params);
    p.reset();
    let a = p.process_sample(0, s(0.33), &params);
    let b = fresh.process_sample(0, s(0.33), &params);
    assert_eq!(a.raw, b.raw);
}

#[test]
fn update_fs_tracks_the_snapshot() {
    let mut p = Penare::default();
    let mut params = PenareParams::default();
    p.initialize(Sample::from_int(48000), &params);
    params.f1_freq = Sample::from_int(500);
    p.update_fs(&params);
    assert_eq!(p.f1[0].freq.raw, Sample::from_int(500).raw);
    assert_eq!(p.f1[1].freq.raw, Sample::from_int(500).raw);
}

#[test]
fn telemetry_snapshot_follows_the_parameters() {
    let mut p = Penare::default();
    let mut params = PenareParams::default();
    params.flip = true;
    params.pos_function_type = FunctionType::Sillyfold;
    params.copy_function = TriState::Neg;
    p.update_waveshapers_data(&params);
    assert!(p.waveshapers_data.get_flip());
    assert_eq!(p.waveshapers_data.get_pos_function_type(), FunctionType::Sillyfold);
    assert_eq!(p.waveshapers_data.get_copy(), TriState::Neg);
    assert_eq!(p.waveshapers_data.get_input_gain().raw, params.input_gain.raw);
}

#[test]
fn channels_are_independent() {
    let mut p = identity_pipeline();
    let params = hard_clip_params();
    let mut left: Vec<Sample> = vec![s(1.0); 4];
    let mut right: Vec<Sample> = vec![s(0.1); 4];
    p.process(&mut left, &mut right, &params);
    for i in 0..4 {
        assert_eq!(left[i].raw, s(0.3).raw);
        assert_eq!(right[i].raw, s(0.1).raw);
    }
}
