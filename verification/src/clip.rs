//! The output-clip curve set: the same six curves as the small waveshaper
//! set, kept under their own kind so the final clip stage can be configured
//! independently of the shaping stage.

use crate::fixed::{fx_mul, Sample};
use crate::fxs::utils::{hard_clip, spec_hard_clip};
use crate::fxs::waveshaper::{
    curve_inv_two_tanh, curve_reciprocal, curve_softdrive, curve_two_tanh,
};
use crate::math::tanh;
use crate::waveshaper::{apply_inv_two_tanh, apply_reciprocal, apply_softdrive};
use vstd::prelude::*;

verus! {

#[derive(Clone, Copy, PartialEq, Eq, Structural, Debug)]
pub enum ClipType {
    Hard,
    Scaled,
    TwoTanh,
    Reciprocal,
    Softdrive,
    InvTwoTanh,
}

/// What each clip curve returns for an input `x` and threshold `t`.
pub open spec fn spec_clip(ty: ClipType, x: int, t: int) -> int {
    match ty {
        ClipType::Hard => spec_hard_clip(x, t),
        ClipType::Scaled => fx_mul(x, t),
        ClipType::TwoTanh => curve_two_tanh(x, t),
        ClipType::Reciprocal => curve_reciprocal(x, t),
        ClipType::Softdrive => curve_softdrive(x, t),
        ClipType::InvTwoTanh => curve_inv_two_tanh(x, t),
    }
}

impl ClipType {
    /// Apply the clip curve to a sample with the given threshold.
    pub fn apply(&self, x: Sample, threshold: Sample) -> (r: Sample)
        ensures
            r@ == spec_clip(*self, x@, threshold@),
    {
        match self {
            ClipType::Hard => hard_clip(x, threshold),
            ClipType::Scaled => x.mul(threshold),
            ClipType::TwoTanh => tanh(x.scale(2)).mul(threshold),
            ClipType::Reciprocal => apply_reciprocal(x, threshold),
            ClipType::Softdrive => apply_softdrive(x, threshold),
            ClipType::InvTwoTanh => apply_inv_two_tanh(x, threshold),
        }
    }
}

} // verus!
