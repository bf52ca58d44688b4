//! A read-only snapshot of the waveshaper settings for a visualization
//! layer.
//!
//! The pipeline fills this struct with plain values; whatever cross-thread
//! publication a UI needs (double buffering, an atomic cell) is the outer
//! layer's business, not this crate's.

use crate::fixed::Sample;
use crate::fxs::waveshaper::FunctionType;
use crate::params::TriState;
use vstd::prelude::*;

verus! {

#[derive(Clone, Copy, Debug)]
pub struct WaveshapersData {
    /// Gain before the distortion stages.
    pub input_gain: Sample,
    /// Gain after the distortion stages.
    pub output_gain: Sample,
    /// The curves for the positive and negative polarities.
    pub pos_function_type: FunctionType,
    pub neg_function_type: FunctionType,
    /// Their drive parameters.
    pub pos_function_param: Sample,
    pub neg_function_param: Sample,
    /// Their crossfade ratios.
    pub pos_function_mix: Sample,
    pub neg_function_mix: Sample,
    /// Whether the final clip is on, and its threshold.
    pub clip: bool,
    pub clip_threshold: Sample,
    /// The polarity-copy selector.
    pub copy: TriState,
    /// Whether the waveshaped signal's phase is flipped.
    pub flip: bool,
}

impl Default for WaveshapersData {
    /// Unity gains, hard clips at unity drive on both sides, the final
    /// clip on at unity, no copying and no phase flip.
    fn default() -> (d: WaveshapersData)
        ensures
            d.input_gain@ == crate::fixed::ONE as int,
            d.output_gain@ == crate::fixed::ONE as int,
            d.pos_function_type == FunctionType::HardClip,
            d.neg_function_type == FunctionType::HardClip,
            d.pos_function_param@ == crate::fixed::ONE as int,
            d.neg_function_param@ == crate::fixed::ONE as int,
            d.pos_function_mix@ == 0 && d.neg_function_mix@ == 0,
            d.clip == true,
            d.clip_threshold@ == crate::fixed::ONE as int,
            d.copy == TriState::Off,
            d.flip == false,
    {
        WaveshapersData {
            input_gain: Sample::one(),
            output_gain: Sample::one(),
            pos_function_type: FunctionType::HardClip,
            neg_function_type: FunctionType::HardClip,
            pos_function_param: Sample::one(),
            neg_function_param: Sample::one(),
            pos_function_mix: Sample::zero(),
            neg_function_mix: Sample::zero(),
            clip: true,
            clip_threshold: Sample::one(),
            copy: TriState::Off,
            flip: false,
        }
    }
}

impl WaveshapersData {
    pub fn get_input_gain(&self) -> (r: Sample)
        ensures
            r == self.input_gain,
    {
        self.input_gain
    }

    pub fn get_output_gain(&self) -> (r: Sample)
        ensures
            r == self.output_gain,
    {
        self.output_gain
    }

    pub fn get_pos_function_type(&self) -> (r: FunctionType)
        ensures
            r == self.pos_function_type,
    {
        self.pos_function_type
    }

    pub fn get_neg_function_type(&self) -> (r: FunctionType)
        ensures
            r == self.neg_function_type,
    {
        self.neg_function_type
    }

    pub fn get_pos_function_param(&self) -> (r: Sample)
        ensures
            r == self.pos_function_param,
    {
        self.pos_function_param
    }

    pub fn get_neg_function_param(&self) -> (r: Sample)
        ensures
            r == self.neg_function_param,
    {
        self.neg_function_param
    }

    pub fn get_pos_function_mix(&self) -> (r: Sample)
        ensures
            r == self.pos_function_mix,
    {
        self.pos_function_mix
    }

    pub fn get_neg_function_mix(&self) -> (r: Sample)
        ensures
            r == self.neg_function_mix,
    {
        self.neg_function_mix
    }

    pub fn get_clip(&self) -> (r: bool)
        ensures
            r == self.clip,
    {
        self.clip
    }

    pub fn get_clip_threshold(&self) -> (r: Sample)
        ensures
            r == self.clip_threshold,
    {
        self.clip_threshold
    }

    pub fn get_copy(&self) -> (r: TriState)
        ensures
            r == self.copy,
    {
        self.copy
    }

    pub fn get_flip(&self) -> (r: bool)
        ensures
            r == self.flip,
    {
        self.flip
    }

    pub fn set_input_gain(&mut self, input_gain: Sample)
        ensures
            *final(self) == (WaveshapersData { input_gain, ..*old(self) }),
    {
        self.input_gain = input_gain;
    }

    pub fn set_output_gain(&mut self, output_gain: Sample)
        ensures
            *final(self) == (WaveshapersData { output_gain, ..*old(self) }),
    {
        self.output_gain = output_gain;
    }

    pub fn set_function_types(&mut self, pos: FunctionType, neg: FunctionType)
        ensures
            *final(self) == (WaveshapersData {
                pos_function_type: pos,
                neg_function_type: neg,
                ..*old(self)
            }),
    {
        self.pos_function_type = pos;
        self.neg_function_type = neg;
    }

    pub fn set_function_params(&mut self, pos: Sample, neg: Sample)
        ensures
            *final(self) == (WaveshapersData {
                pos_function_param: pos,
                neg_function_param: neg,
                ..*old(self)
            }),
    {
        self.pos_function_param = pos;
        self.neg_function_param = neg;
    }

    pub fn set_function_mixs(&mut self, pos: Sample, neg: Sample)
        ensures
            *final(self) == (WaveshapersData {
                pos_function_mix: pos,
                neg_function_mix: neg,
                ..*old(self)
            }),
    {
        self.pos_function_mix = pos;
        self.neg_function_mix = neg;
    }

    pub fn set_clip(&mut self, clip: bool)
        ensures
            *final(self) == (WaveshapersData { clip, ..*old(self) }),
    {
        self.clip = clip;
    }

    pub fn set_clip_threshold(&mut self, clip_threshold: Sample)
        ensures
            *final(self) == (WaveshapersData { clip_threshold, ..*old(self) }),
    {
        self.clip_threshold = clip_threshold;
    }

    pub fn set_copy(&mut self, copy: TriState)
        ensures
            *final(self) == (WaveshapersData { copy, ..*old(self) }),
    {
        self.copy = copy;
    }

    pub fn set_flip(&mut self, flip: bool)
        ensures
            *final(self) == (WaveshapersData { flip, ..*old(self) }),
    {
        self.flip = flip;
    }
}

} // verus!
