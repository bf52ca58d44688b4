//! Half- and full-wave rectification of a sample.

use crate::fixed::{fx_abs, fx_max, Sample, SAT_LIMIT};
use vstd::prelude::*;

verus! {

#[derive(Clone, Copy, PartialEq, Eq, Structural, Debug)]
pub enum RectifyType {
    HalfWave,
    FullWave,
}

/// What each rectifier kind returns: half-wave keeps only the positive
/// part, full-wave takes the magnitude.
pub open spec fn spec_rectify(ty: RectifyType, x: int) -> int {
    match ty {
        RectifyType::HalfWave => fx_max(x, 0),
        RectifyType::FullWave => fx_abs(x),
    }
}

impl RectifyType {
    pub fn apply(&self, x: Sample) -> (r: Sample)
        ensures
            r@ == spec_rectify(*self, x@),
    {
        match self {
            RectifyType::HalfWave => x.max(Sample::zero()),
            RectifyType::FullWave => x.abs(),
        }
    }
}

/// Law: half-wave rectification never returns a negative sample, and
/// full-wave rectification returns exactly the magnitude.
pub proof fn lemma_rectify(x: int)
    requires
        -(SAT_LIMIT as int) <= x <= SAT_LIMIT as int,
    ensures
        spec_rectify(RectifyType::HalfWave, x) >= 0,
        spec_rectify(RectifyType::FullWave, x) == if x < 0 {
            -x
        } else {
            x
        },
{
}

} // verus!
