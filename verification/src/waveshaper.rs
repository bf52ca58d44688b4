//! The earlier, smaller waveshaper set: six curves selected by kind.
//!
//! The curve formulas are shared with the full transfer-function library in
//! `fxs::waveshaper`; this set differs in its variant list (it has the
//! soft-drive knee and drops the folds and quantizers) and in `Scaled`,
//! which multiplies without clipping.

use crate::fixed::{fx_mul, Sample};
use crate::fxs::utils::{hard_clip, spec_hard_clip};
use crate::fxs::waveshaper::{
    curve_inv_two_tanh, curve_reciprocal, curve_softdrive, curve_two_tanh,
};
use crate::math::tanh;
use vstd::prelude::*;

verus! {

#[derive(Clone, Copy, PartialEq, Eq, Structural, Debug)]
pub enum FunctionType {
    Hard,
    Scaled,
    TwoTanh,
    Reciprocal,
    Softdrive,
    InvTwoTanh,
}

/// What each curve returns for an input `x` and threshold `t`.
pub open spec fn spec_apply(ty: FunctionType, x: int, t: int) -> int {
    match ty {
        FunctionType::Hard => spec_hard_clip(x, t),
        FunctionType::Scaled => fx_mul(x, t),
        FunctionType::TwoTanh => curve_two_tanh(x, t),
        FunctionType::Reciprocal => curve_reciprocal(x, t),
        FunctionType::Softdrive => curve_softdrive(x, t),
        FunctionType::InvTwoTanh => curve_inv_two_tanh(x, t),
    }
}

impl FunctionType {
    /// Apply the curve to a sample with the given threshold parameter.
    pub fn apply(&self, x: Sample, threshold: Sample) -> (r: Sample)
        ensures
            r@ == spec_apply(*self, x@, threshold@),
    {
        match self {
            FunctionType::Hard => hard_clip(x, threshold),
            FunctionType::Scaled => x.mul(threshold),
            FunctionType::TwoTanh => tanh(x.scale(2)).mul(threshold),
            FunctionType::Reciprocal => apply_reciprocal(x, threshold),
            FunctionType::Softdrive => apply_softdrive(x, threshold),
            FunctionType::InvTwoTanh => apply_inv_two_tanh(x, threshold),
        }
    }
}

/// The shared reciprocal curve: `2 sign(x) (t - t / (|x| + 1))`.
pub(crate) fn apply_reciprocal(x: Sample, t: Sample) -> (r: Sample)
    ensures
        r@ == curve_reciprocal(x@, t@),
{
    let m = t.sub(t.div(x.abs().add(Sample::one()))).scale(2);
    if x.is_negative() {
        m.neg()
    } else {
        m
    }
}

/// The shared soft-drive knee curve.
pub(crate) fn apply_softdrive(x: Sample, t: Sample) -> (r: Sample)
    ensures
        r@ == curve_softdrive(x@, t@),
{
    let xa = x.abs();
    let lower_knee = (Sample { raw: crate::fxs::waveshaper::THIRD }).mul(t);
    let upper_knee = (Sample { raw: crate::fxs::waveshaper::TWO_THIRDS }).mul(t);
    let m = if xa.raw <= lower_knee.raw {
        xa.scale(2)
    } else if xa.raw <= upper_knee.raw {
        let d = Sample::from_int(2).sub(xa.scale(3));
        Sample::from_int(3).sub(d.mul(d)).div(Sample::from_int(3))
    } else {
        t
    };
    if x.is_negative() {
        m.neg()
    } else {
        m
    }
}

/// The shared saturating inverse-tanh curve, through the identity
/// `tanh(2 artanh(u)) = 2 u / (1 + u^2)`.
pub(crate) fn apply_inv_two_tanh(x: Sample, t: Sample) -> (r: Sample)
    ensures
        r@ == curve_inv_two_tanh(x@, t@),
{
    let xa = x.abs();
    let m = if xa.scale(2).raw < t.raw {
        let u = xa.scale(2).div(t);
        u.scale(2).div(Sample::one().add(u.mul(u))).mul(t)
    } else {
        t
    };
    if x.is_negative() {
        m.neg()
    } else {
        m
    }
}

} // verus!
