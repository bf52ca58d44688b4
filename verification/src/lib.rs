//! A verified digital-signal-processing core for an audio distortion and
//! waveshaping effect.
//!
//! Audio samples are modelled as saturating fixed-point numbers
//! (`fixed::Sample`) so that every stage of the pipeline has an exact
//! arithmetic meaning.  The host-facing layer converts to and from its own
//! sample format and supplies already-smoothed parameter values; this crate
//! owns the per-sample signal flow: filtering, gain staging, waveshaping,
//! rectification, bit crushing, excess recombination, dry/wet mixing and
//! the final safety clip.
//!
//! The orchestrator in this file processes a stereo pair of channels.  For
//! fixed parameters and a fixed filter state the mapping from one input
//! sample to one output sample is a pure function (`spec_process_sample`);
//! the only state carried across samples is each filter's two delay
//! registers, and channels share no state at all.

pub mod clip;
pub mod data;
pub mod fixed;
pub mod fxs;
pub mod math;
pub mod params;
pub mod waveshaper;

use crate::data::WaveshapersData;
use crate::fixed::{fx_add, fx_mul, fx_neg, fx_sub, Sample};
use crate::fxs::crusher::spec_crush;
use crate::fxs::filter::{coeffs_of, spec_coeffs, spec_out, spec_step, Biquad};
use crate::fxs::rectify::spec_rectify;
use crate::fxs::utils::{
    hard_clip, mix_between, mix_in, spec_hard_clip, spec_mix_between, spec_mix_in,
};
use crate::fxs::waveshaper::spec_apply;
use crate::params::{PenareParams, TriState};
use vstd::prelude::*;

verus! {

/// Which polarity's waveshaper settings apply to the current sample: the
/// copy selector forces one side; otherwise the sign of the sample at this
/// point of the pipeline decides.
pub open spec fn spec_use_positive(copy: TriState, s: int) -> bool {
    if copy == TriState::Pos {
        true
    } else if copy == TriState::Neg {
        false
    } else {
        s >= 0
    }
}

/// The waveshaping stage: apply the selected polarity's curve, crossfade
/// by that polarity's mix, optionally flip the phase, optionally re-clip
/// at the same drive parameter, then crossfade the whole result against
/// the stage input by the global function mix.
pub open spec fn spec_shaped(s: int, p: PenareParams) -> int {
    let use_pos = spec_use_positive(p.copy_function, s);
    let ft = if use_pos {
        p.pos_function_type
    } else {
        p.neg_function_type
    };
    let fp = if use_pos {
        p.pos_function_param
    } else {
        p.neg_function_param
    };
    let fm = if use_pos {
        p.pos_function_mix
    } else {
        p.neg_function_mix
    };
    let wss0 = spec_mix_between(s, spec_apply(ft, s, fp@), fm@);
    let wss1 = if p.flip {
        fx_neg(wss0)
    } else {
        wss0
    };
    let wss2 = if p.function_clip {
        spec_hard_clip(wss1, fp@)
    } else {
        wss1
    };
    spec_mix_between(s, wss2, p.function_mix@)
}

/// The optional rectifier stage: crossfade the rectified signal against
/// the current one, then additively mix it in, with two independent ratios.
pub open spec fn spec_rectified(s: int, p: PenareParams) -> int {
    if !p.rectify {
        s
    } else {
        let r = spec_rectify(p.rectify_type, s);
        spec_mix_in(spec_mix_between(s, r, p.rectify_mix@), r, p.rectify_mix_in@)
    }
}

/// The optional crusher stage, with the same crossfade-and-mix-in pattern.
pub open spec fn spec_crushed(s: int, p: PenareParams) -> int {
    if !p.crush {
        s
    } else {
        let c = spec_crush(p.crush_type, s, p.crush_param@);
        spec_mix_in(spec_mix_between(s, c, p.crush_mix@), c, p.crush_mix_in@)
    }
}

/// Excess recombination: mix the two filters' rejected signals back in,
/// the excess ratio serving as both scale and blend factor; with the
/// bypass on, the output is the excess alone.
pub open spec fn spec_recombined(s: int, ex1: int, ex2: int, p: PenareParams) -> int {
    if !p.excess_bypass {
        spec_mix_in(
            s,
            fx_add(fx_mul(p.excess_mix@, ex1), fx_mul(p.excess_mix@, ex2)),
            p.excess_mix@,
        )
    } else {
        fx_add(ex1, ex2)
    }
}

/// The tail of the pipeline: dry/wet crossfade, then the optional final
/// hard clip that bounds the output by the caller's threshold.
pub open spec fn spec_finalized(dry: int, s: int, p: PenareParams) -> int {
    let mixed = spec_mix_between(dry, s, p.mix@);
    if p.output_clip {
        spec_hard_clip(mixed, p.output_clip_threshold@)
    } else {
        mixed
    }
}

/// The distortion chain applied to the filtered sample: pre-gain,
/// rectify, waveshape, crush, post-gain.
pub open spec fn spec_wet(s: int, p: PenareParams) -> int {
    let g = fx_mul(s, p.input_gain@);
    let r = spec_rectified(g, p);
    let w = spec_shaped(r, p);
    let c = spec_crushed(w, p);
    fx_mul(c, p.output_gain@)
}

/// One channel's whole per-sample mapping, given that channel's two filter
/// states: filter in series (capturing each stage's excess), run the
/// distortion chain, recombine the excess, crossfade against the dry
/// input and clip.
pub open spec fn spec_process_sample(f1: Biquad, f2: Biquad, x: int, p: PenareParams) -> int {
    let s1 = spec_out(f1, x);
    let ex1 = fx_sub(x, s1);
    let s2 = spec_out(f2, s1);
    let ex2 = fx_sub(s1, s2);
    spec_finalized(x, spec_recombined(spec_wet(s2, p), ex1, ex2, p), p)
}

/// Both filter states of one channel after a sequence of samples has run
/// through the pipeline.
pub open spec fn spec_chain_states(f1: Biquad, f2: Biquad, xs: Seq<int>, p: PenareParams) -> (
    Biquad,
    Biquad,
)
    decreases xs.len(),
{
    if xs.len() == 0 {
        (f1, f2)
    } else {
        let prev = spec_chain_states(f1, f2, xs.drop_last(), p);
        let x = xs.last();
        (spec_step(prev.0, x), spec_step(prev.1, spec_out(prev.0, x)))
    }
}

/// The output samples of one channel for a sequence of inputs, threading
/// the filter state strictly in index order.
pub open spec fn spec_chain_out(f1: Biquad, f2: Biquad, xs: Seq<int>, p: PenareParams) -> Seq<int>
    decreases xs.len(),
{
    if xs.len() == 0 {
        Seq::empty()
    } else {
        let prev = spec_chain_states(f1, f2, xs.drop_last(), p);
        spec_chain_out(f1, f2, xs.drop_last(), p).push(
            spec_process_sample(prev.0, prev.1, xs.last(), p),
        )
    }
}

/// The raw amplitudes a channel buffer holds.
pub open spec fn views_of(xs: Seq<Sample>) -> Seq<int> {
    xs.map_values(|s: Sample| s@)
}

/// The signal pipeline instance: one pair of filters per stereo channel,
/// plus the sample rate and the UI telemetry snapshot.
pub struct Penare {
    pub sample_rate: Sample,
    pub waveshapers_data: WaveshapersData,
    pub f1: Vec<Biquad>,
    pub f2: Vec<Biquad>,
}

impl Penare {
    /// Well-formed: one filter per stereo channel in each slot.
    pub open spec fn wf(&self) -> bool {
        self.f1.len() == 2 && self.f2.len() == 2
    }

    /// Set the sample rate, push it into every filter, and design all
    /// coefficients from the given parameters.  Must run before `process`.
    pub fn initialize(&mut self, sample_rate: Sample, params: &PenareParams)
        requires
            old(self).wf(),
        ensures
            final(self).wf(),
            final(self).sample_rate == sample_rate,
            forall|i: int|
                0 <= i < 2 ==> coeffs_of(#[trigger] final(self).f1@[i]) == spec_coeffs(
                    params.f1_type,
                    params.f1_freq@,
                    params.f1_q@,
                    sample_rate@,
                ),
            forall|i: int|
                0 <= i < 2 ==> coeffs_of(#[trigger] final(self).f2@[i]) == spec_coeffs(
                    params.f2_type,
                    params.f2_freq@,
                    params.f2_q@,
                    sample_rate@,
                ),
            forall|i: int|
                0 <= i < 2 ==> (#[trigger] final(self).f1@[i]).filter_type == params.f1_type
                    && final(self).f1@[i].freq == params.f1_freq && final(self).f1@[i].q
                    == params.f1_q && final(self).f1@[i].sample_rate == sample_rate,
            forall|i: int|
                0 <= i < 2 ==> (#[trigger] final(self).f2@[i]).filter_type == params.f2_type
                    && final(self).f2@[i].freq == params.f2_freq && final(self).f2@[i].q
                    == params.f2_q && final(self).f2@[i].sample_rate == sample_rate,
            forall|i: int|
                0 <= i < 2 ==> (#[trigger] final(self).f1@[i]).s1 == old(self).f1@[i].s1 && final(self).f1@[i].s2 == old(self).f1@[i].s2,
            forall|i: int|
                0 <= i < 2 ==> (#[trigger] final(self).f2@[i]).s1 == old(self).f2@[i].s1 && final(self).f2@[i].s2 == old(self).f2@[i].s2,
    {
        self.sample_rate = sample_rate;
        self.update_waveshapers_data(params);
        let mut i: usize = 0;
        while i < 2
            invariant
                old(self).wf(),
                self.wf(),
                i <= 2,
                self.sample_rate == sample_rate,
                self.f2 == old(self).f2,
                forall|j: int| i <= j < 2 ==> #[trigger] self.f1@[j] == old(self).f1@[j],
                forall|j: int|
                    0 <= j < i ==> (#[trigger] self.f1@[j]).sample_rate == sample_rate
                        && self.f1@[j].s1 == old(self).f1@[j].s1 && self.f1@[j].s2 == old(self).f1@[j].s2,
            decreases 2 - i,
        {
            let mut b = self.f1[i];
            b.sample_rate = sample_rate;
            self.f1.set(i, b);
            i = i + 1;
        }
        let mut i: usize = 0;
        while i < 2
            invariant
                old(self).wf(),
                self.wf(),
                i <= 2,
                self.sample_rate == sample_rate,
                forall|j: int|
                    0 <= j < 2 ==> (#[trigger] self.f1@[j]).sample_rate == sample_rate
                        && self.f1@[j].s1 == old(self).f1@[j].s1 && self.f1@[j].s2 == old(self).f1@[j].s2,
                forall|j: int| i <= j < 2 ==> #[trigger] self.f2@[j] == old(self).f2@[j],
                forall|j: int|
                    0 <= j < i ==> (#[trigger] self.f2@[j]).sample_rate == sample_rate
                        && self.f2@[j].s1 == old(self).f2@[j].s1 && self.f2@[j].s2 == old(self).f2@[j].s2,
            decreases 2 - i,
        {
            let mut b = self.f2[i];
            b.sample_rate = sample_rate;
            self.f2.set(i, b);
            i = i + 1;
        }
        self.update_f1(params);
        self.update_f2(params);
    }

    /// Zero every filter's delay registers; coefficients and parameters
    /// stay untouched.
    pub fn reset(&mut self)
        requires
            old(self).wf(),
        ensures
            final(self).wf(),
            final(self).sample_rate == old(self).sample_rate,
            final(self).waveshapers_data == old(self).waveshapers_data,
            forall|i: int|
                0 <= i < 2 ==> #[trigger] final(self).f1@[i] == (Biquad {
                    s1: (Sample { raw: 0 }),
                    s2: (Sample { raw: 0 }),
                    ..old(self).f1@[i]
                }),
            forall|i: int|
                0 <= i < 2 ==> #[trigger] final(self).f2@[i] == (Biquad {
                    s1: (Sample { raw: 0 }),
                    s2: (Sample { raw: 0 }),
                    ..old(self).f2@[i]
                }),
    {
        let mut i: usize = 0;
        while i < 2
            invariant
                old(self).wf(),
                self.wf(),
                i <= 2,
                self.sample_rate == old(self).sample_rate,
                self.waveshapers_data == old(self).waveshapers_data,
                self.f2 == old(self).f2,
                forall|j: int| i <= j < 2 ==> #[trigger] self.f1@[j] == old(self).f1@[j],
                forall|j: int|
                    0 <= j < i ==> #[trigger] self.f1@[j] == (Biquad {
                        s1: (Sample { raw: 0 }),
                        s2: (Sample { raw: 0 }),
                        ..old(self).f1@[j]
                    }),
            decreases 2 - i,
        {
            let mut b = self.f1[i];
            b.reset();
            self.f1.set(i, b);
            i = i + 1;
        }
        let mut i: usize = 0;
        while i < 2
            invariant
                old(self).wf(),
                self.wf(),
                i <= 2,
                self.sample_rate == old(self).sample_rate,
                self.waveshapers_data == old(self).waveshapers_data,
                forall|j: int|
                    0 <= j < 2 ==> #[trigger] self.f1@[j] == (Biquad {
                        s1: (Sample { raw: 0 }),
                        s2: (Sample { raw: 0 }),
                        ..old(self).f1@[j]
                    }),
                forall|j: int| i <= j < 2 ==> #[trigger] self.f2@[j] == old(self).f2@[j],
                forall|j: int|
                    0 <= j < i ==> #[trigger] self.f2@[j] == (Biquad {
                        s1: (Sample { raw: 0 }),
                        s2: (Sample { raw: 0 }),
                        ..old(self).f2@[j]
                    }),
            decreases 2 - i,
        {
            let mut b = self.f2[i];
            b.reset();
            self.f2.set(i, b);
            i = i + 1;
        }
    }

    /// Copy the current waveshaper settings into the telemetry snapshot.
    pub fn update_waveshapers_data(&mut self, params: &PenareParams)
        ensures
            final(self).waveshapers_data.input_gain == params.input_gain,
            final(self).waveshapers_data.output_gain == params.output_gain,
            final(self).waveshapers_data.pos_function_type == params.pos_function_type,
            final(self).waveshapers_data.neg_function_type == params.neg_function_type,
            final(self).waveshapers_data.pos_function_param == params.pos_function_param,
            final(self).waveshapers_data.neg_function_param == params.neg_function_param,
            final(self).waveshapers_data.pos_function_mix == params.pos_function_mix,
            final(self).waveshapers_data.neg_function_mix == params.neg_function_mix,
            final(self).waveshapers_data.clip == params.output_clip,
            final(self).waveshapers_data.clip_threshold == params.output_clip_threshold,
            final(self).waveshapers_data.copy == params.copy_function,
            final(self).waveshapers_data.flip == params.flip,
            final(self).sample_rate == old(self).sample_rate,
            final(self).f1 == old(self).f1,
            final(self).f2 == old(self).f2,
    {
        self.waveshapers_data.set_input_gain(params.input_gain);
        self.waveshapers_data.set_output_gain(params.output_gain);
        self.waveshapers_data.set_function_types(
            params.pos_function_type,
            params.neg_function_type,
        );
        self.waveshapers_data.set_function_params(
            params.pos_function_param,
            params.neg_function_param,
        );
        self.waveshapers_data.set_function_mixs(params.pos_function_mix, params.neg_function_mix);
        self.waveshapers_data.set_clip(params.output_clip);
        self.waveshapers_data.set_clip_threshold(params.output_clip_threshold);
        self.waveshapers_data.set_copy(params.copy_function);
        self.waveshapers_data.set_flip(params.flip);
    }

    /// Configure both channels of the first filter slot from the snapshot
    /// and design their coefficients; the delay registers are untouched.
    pub fn update_f1(&mut self, params: &PenareParams)
        requires
            old(self).wf(),
        ensures
            final(self).wf(),
            forall|i: int|
                0 <= i < 2 ==> {
                    let b = #[trigger] final(self).f1@[i];
                    b.filter_type == params.f1_type && b.freq == params.f1_freq && b.q
                        == params.f1_q && b.sample_rate == old(self).f1@[i].sample_rate && b.gain
                        == old(self).f1@[i].gain && b.s1 == old(self).f1@[i].s1 && b.s2 == old(self).f1@[i].s2 && coeffs_of(b) == spec_coeffs(
                        params.f1_type,
                        params.f1_freq@,
                        params.f1_q@,
                        old(self).f1@[i].sample_rate@,
                    )
                },
            final(self).f2 == old(self).f2,
            final(self).sample_rate == old(self).sample_rate,
            final(self).waveshapers_data == old(self).waveshapers_data,
    {
        let mut i: usize = 0;
        while i < 2
            invariant
                old(self).wf(),
                self.wf(),
                i <= 2,
                self.f2 == old(self).f2,
                self.sample_rate == old(self).sample_rate,
                self.waveshapers_data == old(self).waveshapers_data,
                forall|j: int| i <= j < 2 ==> #[trigger] self.f1@[j] == old(self).f1@[j],
                forall|j: int|
                    0 <= j < i ==> {
                        let b = #[trigger] self.f1@[j];
                        b.filter_type == params.f1_type && b.freq == params.f1_freq && b.q
                            == params.f1_q && b.sample_rate == old(self).f1@[j].sample_rate
                            && b.gain == old(self).f1@[j].gain && b.s1 == old(self).f1@[j].s1
                            && b.s2 == old(self).f1@[j].s2 && coeffs_of(b) == spec_coeffs(
                            params.f1_type,
                            params.f1_freq@,
                            params.f1_q@,
                            old(self).f1@[j].sample_rate@,
                        )
                    },
            decreases 2 - i,
        {
            let mut b = self.f1[i];
            b.filter_type = params.f1_type;
            b.freq = params.f1_freq;
            b.q = params.f1_q;
            b.calculate_coeff();
            self.f1.set(i, b);
            i = i + 1;
        }
    }

    /// The same for the second filter slot.
    pub fn update_f2(&mut self, params: &PenareParams)
        requires
            old(self).wf(),
        ensures
            final(self).wf(),
            forall|i: int|
                0 <= i < 2 ==> {
                    let b = #[trigger] final(self).f2@[i];
                    b.filter_type == params.f2_type && b.freq == params.f2_freq && b.q
                        == params.f2_q && b.sample_rate == old(self).f2@[i].sample_rate && b.gain
                        == old(self).f2@[i].gain && b.s1 == old(self).f2@[i].s1 && b.s2 == old(self).f2@[i].s2 && coeffs_of(b) == spec_coeffs(
                        params.f2_type,
                        params.f2_freq@,
                        params.f2_q@,
                        old(self).f2@[i].sample_rate@,
                    )
                },
            final(self).f1 == old(self).f1,
            final(self).sample_rate == old(self).sample_rate,
            final(self).waveshapers_data == old(self).waveshapers_data,
    {
        let mut i: usize = 0;
        while i < 2
            invariant
                old(self).wf(),
                self.wf(),
                i <= 2,
                self.f1 == old(self).f1,
                self.sample_rate == old(self).sample_rate,
                self.waveshapers_data == old(self).waveshapers_data,
                forall|j: int| i <= j < 2 ==> #[trigger] self.f2@[j] == old(self).f2@[j],
                forall|j: int|
                    0 <= j < i ==> {
                        let b = #[trigger] self.f2@[j];
                        b.filter_type == params.f2_type && b.freq == params.f2_freq && b.q
                            == params.f2_q && b.sample_rate == old(self).f2@[j].sample_rate
                            && b.gain == old(self).f2@[j].gain && b.s1 == old(self).f2@[j].s1
                            && b.s2 == old(self).f2@[j].s2 && coeffs_of(b) == spec_coeffs(
                            params.f2_type,
                            params.f2_freq@,
                            params.f2_q@,
                            old(self).f2@[j].sample_rate@,
                        )
                    },
            decreases 2 - i,
        {
            let mut b = self.f2[i];
            b.filter_type = params.f2_type;
            b.freq = params.f2_freq;
            b.q = params.f2_q;
            b.calculate_coeff();
            self.f2.set(i, b);
            i = i + 1;
        }
    }

    /// Whether the first filter slot was configured with other settings
    /// than the snapshot now carries (checked on the first channel;
    /// `update_f1` keeps both channels in step).
    pub open spec fn f1_stale(&self, params: PenareParams) -> bool {
        self.f1@[0].freq != params.f1_freq || self.f1@[0].q != params.f1_q
            || self.f1@[0].filter_type != params.f1_type
    }

    /// The same for the second filter slot.
    pub open spec fn f2_stale(&self, params: PenareParams) -> bool {
        self.f2@[0].freq != params.f2_freq || self.f2@[0].q != params.f2_q
            || self.f2@[0].filter_type != params.f2_type
    }

    /// Recompute a filter slot's coefficients only when the snapshot no
    /// longer matches what that slot was configured with: the lazy
    /// recompute is an optimization, and a slot left alone is left exactly
    /// as it was.
    pub fn update_fs(&mut self, params: &PenareParams)
        requires
            old(self).wf(),
        ensures
            final(self).wf(),
            old(self).f1_stale(*params) ==> forall|i: int|
                0 <= i < 2 ==> {
                    let b = #[trigger] final(self).f1@[i];
                    b.filter_type == params.f1_type && b.freq == params.f1_freq && b.q
                        == params.f1_q && b.s1 == old(self).f1@[i].s1 && b.s2 == old(self).f1@[i].s2
                        && coeffs_of(b) == spec_coeffs(
                        params.f1_type,
                        params.f1_freq@,
                        params.f1_q@,
                        old(self).f1@[i].sample_rate@,
                    )
                },
            !old(self).f1_stale(*params) ==> final(self).f1 == old(self).f1,
            old(self).f2_stale(*params) ==> forall|i: int|
                0 <= i < 2 ==> {
                    let b = #[trigger] final(self).f2@[i];
                    b.filter_type == params.f2_type && b.freq == params.f2_freq && b.q
                        == params.f2_q && b.s1 == old(self).f2@[i].s1 && b.s2 == old(self).f2@[i].s2
                        && coeffs_of(b) == spec_coeffs(
                        params.f2_type,
                        params.f2_freq@,
                        params.f2_q@,
                        old(self).f2@[i].sample_rate@,
                    )
                },
            !old(self).f2_stale(*params) ==> final(self).f2 == old(self).f2,
            final(self).sample_rate == old(self).sample_rate,
            final(self).waveshapers_data == old(self).waveshapers_data,
    {
        if self.f1[0].freq.raw != params.f1_freq.raw || self.f1[0].q.raw != params.f1_q.raw
            || self.f1[0].filter_type != params.f1_type {
            self.update_f1(params);
        }
        if self.f2[0].freq.raw != params.f2_freq.raw || self.f2[0].q.raw != params.f2_q.raw
            || self.f2[0].filter_type != params.f2_type {
            self.update_f2(params);
        }
    }

    /// Run one sample of one channel through the first filter, returning
    /// the filtered sample and the excess.
    pub fn f1_process(&mut self, channel_index: usize, sample: Sample) -> (r: (Sample, Sample))
        requires
            old(self).wf(),
            channel_index < 2,
        ensures
            final(self).wf(),
            r.0@ == spec_out(old(self).f1@[channel_index as int], sample@),
            r.1@ == fx_sub(sample@, spec_out(old(self).f1@[channel_index as int], sample@)),
            final(self).f1@ == old(self).f1@.update(
                channel_index as int,
                spec_step(old(self).f1@[channel_index as int], sample@),
            ),
            final(self).f2 == old(self).f2,
            final(self).sample_rate == old(self).sample_rate,
            final(self).waveshapers_data == old(self).waveshapers_data,
    {
        let mut b = self.f1[channel_index];
        let r = b.process(sample);
        self.f1.set(channel_index, b);
        r
    }

    /// The same through the second filter.
    pub fn f2_process(&mut self, channel_index: usize, sample: Sample) -> (r: (Sample, Sample))
        requires
            old(self).wf(),
            channel_index < 2,
        ensures
            final(self).wf(),
            r.0@ == spec_out(old(self).f2@[channel_index as int], sample@),
            r.1@ == fx_sub(sample@, spec_out(old(self).f2@[channel_index as int], sample@)),
            final(self).f2@ == old(self).f2@.update(
                channel_index as int,
                spec_step(old(self).f2@[channel_index as int], sample@),
            ),
            final(self).f1 == old(self).f1,
            final(self).sample_rate == old(self).sample_rate,
            final(self).waveshapers_data == old(self).waveshapers_data,
    {
        let mut b = self.f2[channel_index];
        let r = b.process(sample);
        self.f2.set(channel_index, b);
        r
    }

    /// Process one sample of one channel through the whole pipeline.
    pub fn process_sample(&mut self, channel_index: usize, x: Sample, params: &PenareParams) -> (r:
        Sample)
        requires
            old(self).wf(),
            channel_index < 2,
        ensures
            final(self).wf(),
            r@ == spec_process_sample(
                old(self).f1@[channel_index as int],
                old(self).f2@[channel_index as int],
                x@,
                *params,
            ),
            params.output_clip && params.output_clip_threshold@ > 0
                ==> -params.output_clip_threshold@ <= r@ <= params.output_clip_threshold@,
            final(self).f1@ == old(self).f1@.update(
                channel_index as int,
                spec_step(old(self).f1@[channel_index as int], x@),
            ),
            final(self).f2@ == old(self).f2@.update(
                channel_index as int,
                spec_step(
                    old(self).f2@[channel_index as int],
                    spec_out(old(self).f1@[channel_index as int], x@),
                ),
            ),
            final(self).sample_rate == old(self).sample_rate,
            final(self).waveshapers_data == old(self).waveshapers_data,
    {
        let dry = x;
        // Filter in series, capturing each stage's excess.
        let (s, ex1) = self.f1_process(channel_index, x);
        let (s, ex2) = self.f2_process(channel_index, s);
        // Pre-gain.
        let s = s.mul(params.input_gain);
        // Optional rectification: crossfade plus additive mix-in.
        let s = if params.rectify {
            let r = params.rectify_type.apply(s);
            mix_in(mix_between(s, r, params.rectify_mix), r, params.rectify_mix_in)
        } else {
            s
        };
        // Waveshape: the polarity of the sample at this point (not of the
        // dry input) picks the parameter set, unless the copy selector
        // forces one side.
        let use_pos = if params.copy_function.is_on() {
            params.copy_function.is_positive()
        } else {
            !s.is_negative()
        };
        let (ft, fp, fm) = if use_pos {
            (params.pos_function_type, params.pos_function_param, params.pos_function_mix)
        } else {
            (params.neg_function_type, params.neg_function_param, params.neg_function_mix)
        };
        let wss = mix_between(s, ft.apply(s, fp), fm);
        let wss = if params.flip {
            wss.neg()
        } else {
            wss
        };
        let wss = if params.function_clip {
            hard_clip(wss, fp)
        } else {
            wss
        };
        let s = mix_between(s, wss, params.function_mix);
        // Optional crush, with the same crossfade-and-mix-in pattern.
        let s = if params.crush {
            let c = params.crush_type.apply(s, params.crush_param);
            mix_in(mix_between(s, c, params.crush_mix), c, params.crush_mix_in)
        } else {
            s
        };
        // Post-gain.
        let s = s.mul(params.output_gain);
        // Excess recombination, or the excess alone under bypass.
        let s = if !params.excess_bypass {
            mix_in(s, params.excess_mix.mul(ex1).add(params.excess_mix.mul(ex2)), params.excess_mix)
        } else {
            ex1.add(ex2)
        };
        // Dry/wet crossfade, then the optional final safety clip.
        let s = mix_between(dry, s, params.mix);
        if params.output_clip {
            hard_clip(s, params.output_clip_threshold)
        } else {
            s
        }
    }

    /// Process one channel's buffer in place, strictly in index order.
    pub fn process_channel(
        &mut self,
        channel_index: usize,
        samples: &mut Vec<Sample>,
        params: &PenareParams,
    )
        requires
            old(self).wf(),
            channel_index < 2,
        ensures
            final(self).wf(),
            final(samples)@.len() == old(samples)@.len(),
            views_of(final(samples)@) == spec_chain_out(
                old(self).f1@[channel_index as int],
                old(self).f2@[channel_index as int],
                views_of(old(samples)@),
                *params,
            ),
            final(self).f1@ == old(self).f1@.update(
                channel_index as int,
                spec_chain_states(
                    old(self).f1@[channel_index as int],
                    old(self).f2@[channel_index as int],
                    views_of(old(samples)@),
                    *params,
                ).0,
            ),
            final(self).f2@ == old(self).f2@.update(
                channel_index as int,
                spec_chain_states(
                    old(self).f1@[channel_index as int],
                    old(self).f2@[channel_index as int],
                    views_of(old(samples)@),
                    *params,
                ).1,
            ),
            final(self).sample_rate == old(self).sample_rate,
            final(self).waveshapers_data == old(self).waveshapers_data,
    {
        let ghost of1 = old(self).f1@[channel_index as int];
        let ghost of2 = old(self).f2@[channel_index as int];
        let ghost xs = views_of(old(samples)@);
        let n = samples.len();
        let mut i: usize = 0;
        proof {
            assert(xs.take(0) =~= Seq::<int>::empty());
            assert(old(self).f1@.update(channel_index as int, of1) =~= old(self).f1@);
            assert(old(self).f2@.update(channel_index as int, of2) =~= old(self).f2@);
            lemma_chain_out_len(of1, of2, xs, *params);
        }
        while i < n
            invariant
                old(self).wf(),
                self.wf(),
                channel_index < 2,
                i <= n,
                n == xs.len(),
                xs == views_of(old(samples)@),
                of1 == old(self).f1@[channel_index as int],
                of2 == old(self).f2@[channel_index as int],
                samples@.len() == n,
                forall|j: int| i <= j < n ==> samples@[j] == old(samples)@[j],
                forall|j: int|
                    0 <= j < i ==> (#[trigger] samples@[j])@ == spec_chain_out(
                        of1,
                        of2,
                        xs,
                        *params,
                    )[j],
                spec_chain_out(of1, of2, xs, *params).len() == n,
                self.f1@ == old(self).f1@.update(
                    channel_index as int,
                    spec_chain_states(of1, of2, xs.take(i as int), *params).0,
                ),
                self.f2@ == old(self).f2@.update(
                    channel_index as int,
                    spec_chain_states(of1, of2, xs.take(i as int), *params).1,
                ),
                self.sample_rate == old(self).sample_rate,
                self.waveshapers_data == old(self).waveshapers_data,
            decreases n - i,
        {
            let ghost prev = spec_chain_states(of1, of2, xs.take(i as int), *params);
            let ghost cii = channel_index as int;
            proof {
                assert(xs.take(i + 1).drop_last() =~= xs.take(i as int));
                assert(xs.take(i + 1).last() == xs[i as int]);
                lemma_chain_out_index(of1, of2, xs, *params, i as int);
                assert(xs[i as int] == old(samples)@[i as int]@);
            }
            let x = samples[i];
            let y = self.process_sample(channel_index, x, params);
            samples.set(i, y);
            proof {
                assert(old(self).f1@.update(cii, prev.0).update(cii, spec_step(prev.0, x@)) =~= old(
                    self,
                ).f1@.update(cii, spec_step(prev.0, x@)));
                assert(old(self).f2@.update(cii, prev.1).update(
                    cii,
                    spec_step(prev.1, spec_out(prev.0, x@)),
                ) =~= old(self).f2@.update(cii, spec_step(prev.1, spec_out(prev.0, x@))));
            }
            i = i + 1;
        }
        proof {
            assert(xs.take(n as int) =~= xs);
            assert(views_of(samples@) =~= spec_chain_out(of1, of2, xs, *params));
        }
    }

    /// Process a stereo block: the left channel under index 0, the right
    /// under index 1.  Channels share no state, so their order is
    /// immaterial.
    pub fn process(&mut self, left: &mut Vec<Sample>, right: &mut Vec<Sample>, params: &PenareParams)
        requires
            old(self).wf(),
        ensures
            final(self).wf(),
            final(left)@.len() == old(left)@.len(),
            final(right)@.len() == old(right)@.len(),
            views_of(final(left)@) == spec_chain_out(
                old(self).f1@[0],
                old(self).f2@[0],
                views_of(old(left)@),
                *params,
            ),
            views_of(final(right)@) == spec_chain_out(
                old(self).f1@[1],
                old(self).f2@[1],
                views_of(old(right)@),
                *params,
            ),
            final(self).f1@ == old(self).f1@.update(
                0,
                spec_chain_states(
                    old(self).f1@[0],
                    old(self).f2@[0],
                    views_of(old(left)@),
                    *params,
                ).0,
            ).update(
                1,
                spec_chain_states(
                    old(self).f1@[1],
                    old(self).f2@[1],
                    views_of(old(right)@),
                    *params,
                ).0,
            ),
            final(self).f2@ == old(self).f2@.update(
                0,
                spec_chain_states(
                    old(self).f1@[0],
                    old(self).f2@[0],
                    views_of(old(left)@),
                    *params,
                ).1,
            ).update(
                1,
                spec_chain_states(
                    old(self).f1@[1],
                    old(self).f2@[1],
                    views_of(old(right)@),
                    *params,
                ).1,
            ),
            final(self).sample_rate == old(self).sample_rate,
            final(self).waveshapers_data == old(self).waveshapers_data,
    {
        self.process_channel(0, left, params);
        self.process_channel(1, right, params);
    }
}

impl Default for Penare {
    /// A stereo pipeline with default filters and telemetry, at a unit
    /// sample rate until `initialize` is called.
    fn default() -> (d: Penare)
        ensures
            d.wf(),
            d.sample_rate@ == crate::fixed::ONE as int,
            forall|i: int|
                0 <= i < 2 ==> {
                    let b = #[trigger] d.f1@[i];
                    b.filter_type == crate::fxs::filter::FilterType::Lowpass && coeffs_of(b) == (
                        0int,
                        0int,
                        0int,
                        0int,
                        0int,
                    ) && b.freq@ == crate::fixed::HALF as int && b.q@ == 759135470 && b.gain@ == 0
                        && b.s1@ == 0 && b.s2@ == 0 && b.sample_rate@ == crate::fixed::ONE as int
                },
            forall|i: int|
                0 <= i < 2 ==> {
                    let b = #[trigger] d.f2@[i];
                    b.filter_type == crate::fxs::filter::FilterType::Lowpass && coeffs_of(b) == (
                        0int,
                        0int,
                        0int,
                        0int,
                        0int,
                    ) && b.freq@ == crate::fixed::HALF as int && b.q@ == 759135470 && b.gain@ == 0
                        && b.s1@ == 0 && b.s2@ == 0 && b.sample_rate@ == crate::fixed::ONE as int
                },
            d.waveshapers_data.input_gain@ == crate::fixed::ONE as int,
            d.waveshapers_data.output_gain@ == crate::fixed::ONE as int,
            d.waveshapers_data.pos_function_type
                == crate::fxs::waveshaper::FunctionType::HardClip,
            d.waveshapers_data.neg_function_type
                == crate::fxs::waveshaper::FunctionType::HardClip,
            d.waveshapers_data.pos_function_param@ == crate::fixed::ONE as int,
            d.waveshapers_data.neg_function_param@ == crate::fixed::ONE as int,
            d.waveshapers_data.pos_function_mix@ == 0,
            d.waveshapers_data.neg_function_mix@ == 0,
            d.waveshapers_data.clip == true,
            d.waveshapers_data.clip_threshold@ == crate::fixed::ONE as int,
            d.waveshapers_data.copy == TriState::Off,
            d.waveshapers_data.flip == false,
    {
        let mut f1: Vec<Biquad> = Vec::new();
        f1.push(Biquad::default());
        f1.push(Biquad::default());
        let mut f2: Vec<Biquad> = Vec::new();
        f2.push(Biquad::default());
        f2.push(Biquad::default());
        Penare { sample_rate: Sample::one(), waveshapers_data: WaveshapersData::default(), f1, f2 }
    }
}

/// A channel's output sequence is as long as its input sequence.
pub proof fn lemma_chain_out_len(f1: Biquad, f2: Biquad, xs: Seq<int>, p: PenareParams)
    ensures
        spec_chain_out(f1, f2, xs, p).len() == xs.len(),
    decreases xs.len(),
{
    if xs.len() > 0 {
        lemma_chain_out_len(f1, f2, xs.drop_last(), p);
    }
}

/// Each output sample is the pure per-sample mapping applied to the filter
/// states left behind by the samples before it: the pipeline is
/// deterministic and processes strictly in index order.
pub proof fn lemma_chain_out_index(f1: Biquad, f2: Biquad, xs: Seq<int>, p: PenareParams, i: int)
    requires
        0 <= i < xs.len(),
    ensures
        spec_chain_out(f1, f2, xs, p)[i] == spec_process_sample(
            spec_chain_states(f1, f2, xs.take(i), p).0,
            spec_chain_states(f1, f2, xs.take(i), p).1,
            xs[i],
            p,
        ),
    decreases xs.len(),
{
    lemma_chain_out_len(f1, f2, xs, p);
    if i == xs.len() - 1 {
        assert(xs.take(i) =~= xs.drop_last());
    } else {
        lemma_chain_out_len(f1, f2, xs.drop_last(), p);
        lemma_chain_out_index(f1, f2, xs.drop_last(), p, i);
        assert(xs.drop_last().take(i) =~= xs.take(i));
        assert(xs.drop_last()[i] == xs[i]);
    }
}

} // verus!
