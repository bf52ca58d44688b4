//! The per-call parameter snapshot.
//!
//! The host-facing layer owns parameter smoothing; for every `process` call
//! it hands the pipeline one already-smoothed scalar per continuous
//! parameter and the current value of each discrete one, bundled in this
//! plain struct.

use crate::fixed::Sample;
use crate::fxs::crusher::CrushType;
use crate::fxs::filter::FilterType;
use crate::fxs::rectify::RectifyType;
use crate::fxs::waveshaper::FunctionType;
use vstd::prelude::*;

verus! {

/// A three-way selector: off, or copy the positive side's settings to both
/// polarities, or copy the negative side's.
#[derive(Clone, Copy, PartialEq, Eq, Structural, Debug)]
pub enum TriState {
    Off,
    Pos,
    Neg,
}

impl TriState {
    pub fn is_off(&self) -> (r: bool)
        ensures
            r == (*self == TriState::Off),
    {
        matches!(self, TriState::Off)
    }

    pub fn is_on(&self) -> (r: bool)
        ensures
            r == (*self != TriState::Off),
    {
        !self.is_off()
    }

    pub fn is_positive(&self) -> (r: bool)
        ensures
            r == (*self == TriState::Pos),
    {
        matches!(self, TriState::Pos)
    }
}

/// One snapshot of every parameter the pipeline reads, valid for the
/// duration of one call.
#[derive(Clone, Copy, Debug)]
pub struct PenareParams {
    /// Crossfade between the dry input and the processed signal.
    pub mix: Sample,
    /// Hard-clip the final output.
    pub output_clip: bool,
    /// Threshold of that final clip.
    pub output_clip_threshold: Sample,
    /// Linear gain before the distortion stages.
    pub input_gain: Sample,
    /// Linear gain after the distortion stages.
    pub output_gain: Sample,
    /// Crossfade between the pre-waveshape signal and the waveshaped one.
    pub function_mix: Sample,
    /// Curve applied to positive-going samples.
    pub pos_function_type: FunctionType,
    /// Its drive/threshold parameter.
    pub pos_function_param: Sample,
    /// Its crossfade ratio against the pre-waveshape sample.
    pub pos_function_mix: Sample,
    /// Curve applied to negative-going samples.
    pub neg_function_type: FunctionType,
    pub neg_function_param: Sample,
    pub neg_function_mix: Sample,
    /// Force one polarity's settings onto both sides.
    pub copy_function: TriState,
    /// Flip the waveshaped signal's phase.
    pub flip: bool,
    /// Re-clip the waveshaped signal at the same drive parameter.
    pub function_clip: bool,
    /// Enable the rectifier stage.
    pub rectify: bool,
    pub rectify_type: RectifyType,
    /// Crossfade ratio of the rectified signal against the current one.
    pub rectify_mix: Sample,
    /// Additive mix-in ratio of the rectified signal.
    pub rectify_mix_in: Sample,
    /// Enable the bit-crusher stage.
    pub crush: bool,
    pub crush_type: CrushType,
    /// The crusher's step parameter.
    pub crush_param: Sample,
    /// Crossfade ratio of the crushed signal against the current one.
    pub crush_mix: Sample,
    /// Additive mix-in ratio of the crushed signal.
    pub crush_mix_in: Sample,
    /// Ratio for mixing the filtered-out excess back in.
    pub excess_mix: Sample,
    pub f1_type: FilterType,
    pub f1_freq: Sample,
    pub f1_q: Sample,
    pub f2_type: FilterType,
    pub f2_freq: Sample,
    pub f2_q: Sample,
    /// When set, the output is the excess signal alone.
    pub excess_bypass: bool,
}

impl Default for PenareParams {
    /// Unity gains and full wet mixes, hard clips on both shaper sides, the
    /// first filter a wide-open low-pass and the second a low-cutoff
    /// high-pass (together a pass-band covering the audible range), the
    /// optional stages off and the final clip on.
    fn default() -> (d: PenareParams)
        ensures
            d.mix@ == crate::fixed::ONE as int,
            d.output_clip == true,
            d.output_clip_threshold@ == crate::fixed::ONE as int,
            d.input_gain@ == crate::fixed::ONE as int,
            d.output_gain@ == crate::fixed::ONE as int,
            d.function_mix@ == crate::fixed::ONE as int,
            d.pos_function_type == FunctionType::HardClip,
            d.pos_function_param@ == crate::fixed::ONE as int,
            d.pos_function_mix@ == crate::fixed::ONE as int,
            d.neg_function_type == FunctionType::HardClip,
            d.neg_function_param@ == crate::fixed::ONE as int,
            d.neg_function_mix@ == crate::fixed::ONE as int,
            d.copy_function == TriState::Off,
            d.flip == false,
            d.function_clip == false,
            d.rectify == false,
            d.rectify_type == RectifyType::HalfWave,
            d.rectify_mix@ == 0,
            d.rectify_mix_in@ == 0,
            d.crush == false,
            d.crush_type == CrushType::Floor,
            d.crush_param@ == crate::fixed::ONE as int,
            d.crush_mix@ == 0,
            d.crush_mix_in@ == 0,
            d.excess_mix@ == 0,
            d.f1_type == FilterType::Lowpass,
            d.f1_freq@ == 22000 * (crate::fixed::ONE as int),
            d.f2_type == FilterType::Highpass,
            d.f2_freq@ == 3 * (crate::fixed::ONE as int),
            d.f1_q@ == 759250125 && d.f2_q@ == 759250125,
            d.excess_bypass == false,
    {
        PenareParams {
            mix: Sample::one(),
            output_clip: true,
            output_clip_threshold: Sample::one(),
            input_gain: Sample::one(),
            output_gain: Sample::one(),
            function_mix: Sample::one(),
            pos_function_type: FunctionType::HardClip,
            pos_function_param: Sample::one(),
            pos_function_mix: Sample::one(),
            neg_function_type: FunctionType::HardClip,
            neg_function_param: Sample::one(),
            neg_function_mix: Sample::one(),
            copy_function: TriState::Off,
            flip: false,
            function_clip: false,
            rectify: false,
            rectify_type: RectifyType::HalfWave,
            rectify_mix: Sample::zero(),
            rectify_mix_in: Sample::zero(),
            crush: false,
            crush_type: CrushType::Floor,
            crush_param: Sample::one(),
            crush_mix: Sample::zero(),
            crush_mix_in: Sample::zero(),
            excess_mix: Sample::zero(),
            f1_type: FilterType::Lowpass,
            f1_freq: Sample::from_int(22000),
            f1_q: Sample { raw: 759250125 },
            f2_type: FilterType::Highpass,
            f2_freq: Sample::from_int(3),
            f2_q: Sample { raw: 759250125 },
            excess_bypass: false,
        }
    }
}

} // verus!
