//! A second-order (biquad) digital filter, one instance per audio channel.
//!
//! Coefficients are designed from (sample rate, cutoff frequency, Q, kind)
//! by the bilinear-transform equations over the fixed-point tangent
//! approximation; processing is a transposed direct-form-II update over two
//! delay registers.  `process` also returns the "excess" signal: the part
//! of the input the filter rejected, defined as input minus output.

use crate::fixed::{fx_add, fx_div, fx_mul, fx_neg, fx_scale, fx_sub, Sample};
use crate::math::{spec_tan, tan, PI};
use vstd::prelude::*;

verus! {

#[derive(Clone, Copy, PartialEq, Eq, Structural, Debug)]
pub enum FilterType {
    Lowpass,
    Highpass,
    Bandpass,
}

#[derive(Clone, Copy, Debug)]
pub struct Biquad {
    pub filter_type: FilterType,
    // Coefficients
    pub a0: Sample,
    pub a1: Sample,
    pub a2: Sample,
    pub b1: Sample,
    pub b2: Sample,
    // Filter parameters
    pub freq: Sample,
    pub q: Sample,
    pub gain: Sample,
    // Unit delays
    pub s1: Sample,
    pub s2: Sample,
    // Sample rate
    pub sample_rate: Sample,
}

/// The frequency-warping factor `k = tan(PI * freq / sample_rate)`.
pub open spec fn spec_warp(freq: int, fs: int) -> int {
    spec_tan(fx_mul(PI as int, fx_div(freq, fs)))
}

/// The normalization factor `1 / (1 + k/q + k^2)`.
pub open spec fn spec_norm(k: int, q: int) -> int {
    fx_div(crate::fixed::ONE as int, fx_add(fx_add(crate::fixed::ONE as int, fx_div(k, q)), fx_mul(k, k)))
}

/// The five designed coefficients `(a0, a1, a2, b1, b2)` for a filter kind.
pub open spec fn spec_coeffs(ft: FilterType, freq: int, q: int, fs: int) -> (int, int, int, int, int) {
    let k = spec_warp(freq, fs);
    let norm = spec_norm(k, q);
    let b1 = fx_mul(fx_scale(2, fx_sub(fx_mul(k, k), crate::fixed::ONE as int)), norm);
    let b2 = fx_mul(fx_add(fx_sub(crate::fixed::ONE as int, fx_div(k, q)), fx_mul(k, k)), norm);
    match ft {
        FilterType::Lowpass => {
            let a0 = fx_mul(fx_mul(k, k), norm);
            (a0, fx_scale(2, a0), a0, b1, b2)
        },
        FilterType::Highpass => {
            let a0 = norm;
            (a0, fx_scale(-2, a0), a0, b1, b2)
        },
        FilterType::Bandpass => {
            let a0 = fx_mul(fx_div(k, q), norm);
            (a0, 0, fx_neg(a0), b1, b2)
        },
    }
}

/// The filter's current coefficients as a tuple.
pub open spec fn coeffs_of(b: Biquad) -> (int, int, int, int, int) {
    (b.a0@, b.a1@, b.a2@, b.b1@, b.b2@)
}

/// The output of one processing step: `x * a0 + s1`.
pub open spec fn spec_out(b: Biquad, x: int) -> int {
    fx_add(fx_mul(x, b.a0@), b.s1@)
}

/// The first delay register after one step.
pub open spec fn spec_next_s1(b: Biquad, x: int) -> int {
    fx_sub(fx_add(fx_mul(x, b.a1@), b.s2@), fx_mul(b.b1@, spec_out(b, x)))
}

/// The second delay register after one step.
pub open spec fn spec_next_s2(b: Biquad, x: int) -> int {
    fx_sub(fx_mul(x, b.a2@), fx_mul(b.b2@, spec_out(b, x)))
}

/// The whole filter state after one processing step.
pub open spec fn spec_step(b: Biquad, x: int) -> Biquad {
    Biquad {
        s1: (Sample { raw: spec_next_s1(b, x) as i64 }),
        s2: (Sample { raw: spec_next_s2(b, x) as i64 }),
        ..b
    }
}

impl Default for Biquad {
    /// A low-pass at half the (unit) sample rate with a 0.707 Q and
    /// cleared delays; the coefficients start at zero until designed.
    fn default() -> (d: Biquad)
        ensures
            d.filter_type == FilterType::Lowpass,
            coeffs_of(d) == (0int, 0int, 0int, 0int, 0int),
            d.freq@ == crate::fixed::HALF as int,
            d.q@ == 759135470,
            d.gain@ == 0,
            d.s1@ == 0 && d.s2@ == 0,
            d.sample_rate@ == crate::fixed::ONE as int,
    {
        Biquad {
            filter_type: FilterType::Lowpass,
            a0: Sample::zero(),
            a1: Sample::zero(),
            a2: Sample::zero(),
            b1: Sample::zero(),
            b2: Sample::zero(),
            freq: Sample { raw: crate::fixed::HALF },
            q: Sample { raw: 759135470 },
            gain: Sample::zero(),
            s1: Sample::zero(),
            s2: Sample::zero(),
            sample_rate: Sample::one(),
        }
    }
}

impl Biquad {
    /// Design the coefficients from the current parameters.  The delay
    /// registers are untouched, so a recompute never causes more than a
    /// one-coefficient-set discontinuity, and recomputing is idempotent.
    pub fn calculate_coeff(&mut self)
        ensures
            coeffs_of(*final(self)) == spec_coeffs(
                old(self).filter_type,
                old(self).freq@,
                old(self).q@,
                old(self).sample_rate@,
            ),
            final(self).filter_type == old(self).filter_type,
            final(self).freq == old(self).freq,
            final(self).q == old(self).q,
            final(self).gain == old(self).gain,
            final(self).s1 == old(self).s1,
            final(self).s2 == old(self).s2,
            final(self).sample_rate == old(self).sample_rate,
    {
        let k = tan(Sample { raw: PI }.mul(self.freq.div(self.sample_rate)));
        let norm = Sample::one().div(Sample::one().add(k.div(self.q)).add(k.mul(k)));
        let b1 = k.mul(k).sub(Sample::one()).scale(2).mul(norm);
        let b2 = Sample::one().sub(k.div(self.q)).add(k.mul(k)).mul(norm);
        match self.filter_type {
            FilterType::Lowpass => {
                self.a0 = k.mul(k).mul(norm);
                self.a1 = self.a0.scale(2);
                self.a2 = self.a0;
                self.b1 = b1;
                self.b2 = b2;
            },
            FilterType::Highpass => {
                self.a0 = norm;
                self.a1 = self.a0.scale(-2);
                self.a2 = self.a0;
                self.b1 = b1;
                self.b2 = b2;
            },
            FilterType::Bandpass => {
                self.a0 = k.div(self.q).mul(norm);
                self.a1 = Sample::zero();
                self.a2 = self.a0.neg();
                self.b1 = b1;
                self.b2 = b2;
            },
        }
    }

    /// Install a coefficient set directly (the equivalent direct-form
    /// parameterization of the design equations; it also lets a caller run
    /// the filter as an exact pass-through).
    pub fn set_coefficients(&mut self, a0: Sample, a1: Sample, a2: Sample, b1: Sample, b2: Sample)
        ensures
            coeffs_of(*final(self)) == (a0@, a1@, a2@, b1@, b2@),
            final(self).filter_type == old(self).filter_type,
            final(self).freq == old(self).freq,
            final(self).q == old(self).q,
            final(self).gain == old(self).gain,
            final(self).s1 == old(self).s1,
            final(self).s2 == old(self).s2,
            final(self).sample_rate == old(self).sample_rate,
    {
        self.a0 = a0;
        self.a1 = a1;
        self.a2 = a2;
        self.b1 = b1;
        self.b2 = b2;
    }

    /// Process one sample, returning the filtered sample and the excess
    /// (the part of the input this filter rejected).
    pub fn process(&mut self, x: Sample) -> (r: (Sample, Sample))
        ensures
            r.0@ == spec_out(*old(self), x@),
            r.1@ == fx_sub(x@, spec_out(*old(self), x@)),
            *final(self) == spec_step(*old(self), x@),
    {
        let output = x.mul(self.a0).add(self.s1);
        self.s1 = x.mul(self.a1).add(self.s2).sub(self.b1.mul(output));
        self.s2 = x.mul(self.a2).sub(self.b2.mul(output));
        (output, x.sub(output))
    }

    /// Clear the two delay registers; coefficients and parameters stay.
    pub fn reset(&mut self)
        ensures
            final(self).s1@ == 0 && final(self).s2@ == 0,
            final(self).filter_type == old(self).filter_type,
            coeffs_of(*final(self)) == coeffs_of(*old(self)),
            final(self).freq == old(self).freq,
            final(self).q == old(self).q,
            final(self).gain == old(self).gain,
            final(self).sample_rate == old(self).sample_rate,
    {
        self.s1 = Sample::zero();
        self.s2 = Sample::zero();
    }
}

/// Law: a filter whose delays were just cleared by `reset` produces the
/// same first output and excess for a given input as a freshly initialized
/// filter carrying the same coefficients.
pub proof fn lemma_reset_matches_fresh(reset_filter: Biquad, fresh: Biquad, x: int)
    requires
        reset_filter.s1@ == 0 && reset_filter.s2@ == 0,
        fresh.s1@ == 0 && fresh.s2@ == 0,
        coeffs_of(reset_filter) == coeffs_of(fresh),
    ensures
        spec_out(reset_filter, x) == spec_out(fresh, x),
        fx_sub(x, spec_out(reset_filter, x)) == fx_sub(x, spec_out(fresh, x)),
{
}

} // verus!
