//! Clipping and mixing helpers shared by the pipeline stages.

use crate::fixed::{
    fx_add, fx_max, fx_min, fx_mul, fx_neg, fx_sub, sat, tdiv, Sample, ONE, SAT_LIMIT,
};
use vstd::arithmetic::div_mod::lemma_div_multiples_vanish;
use vstd::prelude::*;

verus! {

/// The sample clamped into `[-threshold, threshold]`.
pub open spec fn spec_hard_clip(x: int, t: int) -> int {
    fx_max(fx_min(x, t), fx_neg(t))
}

/// Linear crossfade between `a` and `b`: `a` at ratio 0, `b` at ratio `ONE`.
pub open spec fn spec_mix_between(a: int, b: int, mix: int) -> int {
    fx_add(fx_mul(a, fx_sub(ONE as int, mix)), fx_mul(b, mix))
}

/// Additive blend of `b` into `a`, scaled by the ratio.
pub open spec fn spec_mix_in(a: int, b: int, mix: int) -> int {
    fx_add(a, fx_mul(b, mix))
}

/// Clamp a sample into `[-threshold, threshold]`.
pub fn hard_clip(x: Sample, threshold: Sample) -> (r: Sample)
    ensures
        r@ == spec_hard_clip(x@, threshold@),
{
    x.min(threshold).max(threshold.neg())
}

/// Mix between two values: ratio 0 gives `a`, ratio `ONE` gives `b`, and a
/// ratio in between gives the matching affine combination
/// `a * (1 - mix) + b * mix`.
pub fn mix_between(a: Sample, b: Sample, mix: Sample) -> (r: Sample)
    ensures
        r@ == spec_mix_between(a@, b@, mix@),
{
    a.mul(Sample::one().sub(mix)).add(b.mul(mix))
}

/// Mix `b` into `a`, scaled by the ratio.
pub fn mix_in(a: Sample, b: Sample, mix: Sample) -> (r: Sample)
    ensures
        r@ == spec_mix_in(a@, b@, mix@),
{
    a.add(b.mul(mix))
}

/// Multiplying by the unit ratio is exact: no rounding or saturation is
/// involved, so the operand comes back unchanged.
pub proof fn lemma_mul_one(a: int)
    requires
        -(SAT_LIMIT as int) <= a <= SAT_LIMIT as int,
    ensures
        fx_mul(a, ONE as int) == a,
{
    if a > 0 {
        lemma_div_multiples_vanish(a, ONE as int);
        assert(a * (ONE as int) == (ONE as int) * a) by (nonlinear_arith);
    } else if a < 0 {
        lemma_div_multiples_vanish(-a, ONE as int);
        assert((a * (ONE as int)) * -1 == (ONE as int) * (-a)) by (nonlinear_arith);
    }
}

/// Law: hard clipping at a positive threshold bounds the result by that
/// threshold, and passes any sample already within the bound unchanged.
pub proof fn lemma_hard_clip_bounds(x: int, t: int)
    requires
        0 < t <= SAT_LIMIT as int,
    ensures
        -t <= spec_hard_clip(x, t) <= t,
        -t <= x <= t ==> spec_hard_clip(x, t) == x,
{
}

/// Law: hard clipping twice with the same threshold equals clipping once.
pub proof fn lemma_hard_clip_idempotent(x: int, t: int)
    requires
        -(SAT_LIMIT as int) <= t <= SAT_LIMIT as int,
    ensures
        spec_hard_clip(spec_hard_clip(x, t), t) == spec_hard_clip(x, t),
{
}

/// Law: the crossfade returns its first input at ratio zero and its second
/// input at the unit ratio.
pub proof fn lemma_mix_between_endpoints(a: int, b: int)
    requires
        -(SAT_LIMIT as int) <= a <= SAT_LIMIT as int,
        -(SAT_LIMIT as int) <= b <= SAT_LIMIT as int,
    ensures
        spec_mix_between(a, b, 0) == a,
        spec_mix_between(a, b, ONE as int) == b,
{
    lemma_mul_one(a);
    lemma_mul_one(b);
    assert(fx_mul(a, 0) == 0);
}

} // verus!
