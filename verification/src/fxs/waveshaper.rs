//! The waveshaper transfer-function library: a closed set of nonlinear
//! curves, each mapping an input sample and a drive/threshold parameter to
//! an output sample.
//!
//! Every curve is pure and total.  Each variant's behaviour is pinned down
//! by a spec formula over the fixed-point operations; the polarity of the
//! input picks the sign of the result exactly as multiplying by `sign(x)`
//! would (multiplication by a unit is exact).

use crate::fixed::{
    fx_abs, fx_add, fx_div, fx_mul, fx_neg, fx_rem, fx_round, fx_scale, fx_sub, fx_floor,
    Sample, HALF, ONE,
};
use crate::fxs::utils::{hard_clip, spec_hard_clip};
use crate::math::{
    exp2, gain_to_db, sin, spec_exp2, spec_gain_to_db, spec_sin, spec_sqrt, spec_tanh, sqrt,
    tanh, TWO_PI,
};
use vstd::prelude::*;

verus! {

/// `0.25`, the fold offset of the repeating-fold curve.
pub const QUARTER: i64 = 268435456;

/// `0.3`, the output-tilt coefficient of the sinusoidal curve.
pub const THREE_TENTHS: i64 = 322122547;

/// `1/3` and `2/3`, the knee positions of the soft-drive curve.
pub const THIRD: i64 = 357913941;

pub const TWO_THIRDS: i64 = 715827883;

/// Restore the input's polarity onto a magnitude-domain result: the exact
/// effect of multiplying by `sign(x)`.
pub open spec fn apply_sign(x: int, v: int) -> int {
    if x >= 0 {
        v
    } else {
        fx_neg(v)
    }
}

/// `tanh(2 x) * t`.
pub open spec fn curve_two_tanh(x: int, t: int) -> int {
    fx_mul(spec_tanh(fx_scale(2, x)), t)
}

/// `2 sign(x) (t - t / (|x| + 1))`.
pub open spec fn curve_reciprocal(x: int, t: int) -> int {
    apply_sign(x, fx_scale(2, fx_sub(t, fx_div(t, fx_add(fx_abs(x), ONE as int)))))
}

/// `2 sign(x) tanh(t - t / (|x| + 1))`.
pub open spec fn curve_reciprocal_tanh(x: int, t: int) -> int {
    apply_sign(x, fx_scale(2, spec_tanh(fx_sub(t, fx_div(t, fx_add(fx_abs(x), ONE as int))))))
}

/// `sign(x) tanh(2 artanh(2 |x| / t)) t` while `2 |x| < t`, saturating to
/// `sign(x) t` beyond; the inner composition is computed through the
/// algebraic identity `tanh(2 artanh(u)) = 2 u / (1 + u^2)`.
pub open spec fn curve_inv_two_tanh(x: int, t: int) -> int {
    apply_sign(
        x,
        if fx_scale(2, fx_abs(x)) < t {
            let u = fx_div(fx_scale(2, fx_abs(x)), t);
            fx_mul(fx_div(fx_scale(2, u), fx_add(ONE as int, fx_mul(u, u))), t)
        } else {
            t
        },
    )
}

/// The soft-drive knee: linear up to `t/3`, a quadratic blend up to
/// `2 t / 3`, and flat at `t` beyond.
pub open spec fn curve_softdrive(x: int, t: int) -> int {
    let xa = fx_abs(x);
    let m = if xa <= fx_mul(THIRD as int, t) {
        fx_scale(2, xa)
    } else if xa <= fx_mul(TWO_THIRDS as int, t) {
        let d = fx_sub(2 * (ONE as int), fx_scale(3, xa));
        fx_div(fx_sub(3 * (ONE as int), fx_mul(d, d)), 3 * (ONE as int))
    } else {
        t
    };
    apply_sign(x, m)
}

/// Quantize toward zero: `sign(x) |floor(|x| |t|) / t|`.
pub open spec fn curve_floor(x: int, t: int) -> int {
    apply_sign(x, fx_abs(fx_div(fx_floor(fx_mul(fx_abs(x), fx_abs(t))), t)))
}

/// Quantize to nearest: `sign(x) |round(|x| |t|) / t|`.
pub open spec fn curve_round(x: int, t: int) -> int {
    apply_sign(x, fx_abs(fx_div(fx_round(fx_mul(fx_abs(x), fx_abs(t))), t)))
}

/// Quantize to steps of `b = 2^-t`: `b round(x / b)`.
pub open spec fn curve_bitcrush(x: int, t: int) -> int {
    let b = spec_exp2(fx_neg(t));
    fx_mul(b, fx_round(fx_div(x, b)))
}

#[derive(Clone, Copy, PartialEq, Eq, Structural, Debug)]
pub enum FunctionType {
    HardClip,
    ScaledClip,
    TwoTanh,
    Sqrt,
    Reciprocal,
    ReciprocalTanh,
    TanhTwoAtanh,
    Sinusoidal,
    BrokenSin,
    Singlefold,
    Sillyfold,
    Floor,
    Round,
    Bitcrush,
}

/// What each curve returns for an input `x` and drive parameter `t`.
pub open spec fn spec_apply(ty: FunctionType, x: int, t: int) -> int {
    match ty {
        FunctionType::HardClip => spec_hard_clip(x, t),
        FunctionType::ScaledClip => spec_hard_clip(fx_mul(x, t), t),
        FunctionType::TwoTanh => curve_two_tanh(x, t),
        FunctionType::Sqrt => apply_sign(x, fx_mul(spec_sqrt(fx_abs(x)), t)),
        FunctionType::Reciprocal => curve_reciprocal(x, t),
        FunctionType::ReciprocalTanh => curve_reciprocal_tanh(x, t),
        FunctionType::TanhTwoAtanh => curve_inv_two_tanh(x, t),
        FunctionType::Sinusoidal => {
            let ab = fx_abs(fx_div(spec_gain_to_db(fx_abs(t)), 30 * (ONE as int)));
            let w1 = spec_sin(fx_mul(fx_mul(TWO_PI as int, x), fx_add(ONE as int, fx_scale(3, ab))));
            let w2 = fx_add(fx_mul(fx_sub(ONE as int, ab), x), fx_mul(ab, w1));
            fx_mul(fx_sub(ONE as int, fx_mul(THREE_TENTHS as int, ab)), w2)
        },
        FunctionType::BrokenSin => {
            let xa = fx_abs(x);
            let gate = spec_sin(fx_add(fx_mul(TWO_PI as int, xa), fx_add(ONE as int, fx_scale(3, t))));
            let m = if xa > gate {
                spec_sin(fx_mul(xa, t))
            } else {
                xa
            };
            apply_sign(x, m)
        },
        FunctionType::Singlefold => {
            let xa = fx_abs(x);
            let m = if xa > t {
                fx_add(fx_neg(xa), fx_scale(2, fx_abs(t)))
            } else {
                xa
            };
            apply_sign(x, m)
        },
        FunctionType::Sillyfold => {
            let xa = fx_abs(x);
            let folded = fx_abs(
                fx_sub(fx_rem(fx_sub(xa, fx_mul(t, QUARTER as int)), t), fx_mul(t, HALF as int)),
            );
            apply_sign(x, fx_mul(fx_div(fx_scale(4, xa), t), folded))
        },
        FunctionType::Floor => curve_floor(x, t),
        FunctionType::Round => curve_round(x, t),
        FunctionType::Bitcrush => curve_bitcrush(x, t),
    }
}

impl FunctionType {
    /// Apply the curve to a sample with the given drive parameter.
    pub fn apply(&self, x: Sample, t: Sample) -> (r: Sample)
        ensures
            r@ == spec_apply(*self, x@, t@),
    {
        let xa = x.abs();
        let neg = x.is_negative();
        match self {
            FunctionType::HardClip => hard_clip(x, t),
            FunctionType::ScaledClip => hard_clip(x.mul(t), t),
            FunctionType::TwoTanh => tanh(x.scale(2)).mul(t),
            FunctionType::Sqrt => signed(neg, sqrt(xa).mul(t)),
            FunctionType::Reciprocal => signed(neg, t.sub(t.div(xa.add(Sample::one()))).scale(2)),
            FunctionType::ReciprocalTanh => signed(
                neg,
                tanh(t.sub(t.div(xa.add(Sample::one())))).scale(2),
            ),
            FunctionType::TanhTwoAtanh => {
                let m = if xa.scale(2).raw < t.raw {
                    let u = xa.scale(2).div(t);
                    u.scale(2).div(Sample::one().add(u.mul(u))).mul(t)
                } else {
                    t
                };
                signed(neg, m)
            },
            FunctionType::Sinusoidal => {
                let thirty = Sample::from_int(30);
                let ab = gain_to_db(t.abs()).div(thirty).abs();
                let pitch = Sample::one().add(ab.scale(3));
                let w1 = sin(Sample { raw: TWO_PI }.mul(x).mul(pitch));
                let w2 = Sample::one().sub(ab).mul(x).add(ab.mul(w1));
                Sample::one().sub(Sample { raw: THREE_TENTHS }.mul(ab)).mul(w2)
            },
            FunctionType::BrokenSin => {
                let gate = sin(
                    Sample { raw: TWO_PI }.mul(xa).add(Sample::one().add(t.scale(3))),
                );
                let m = if xa.raw > gate.raw {
                    sin(xa.mul(t))
                } else {
                    xa
                };
                signed(neg, m)
            },
            FunctionType::Singlefold => {
                let m = if xa.raw > t.raw {
                    xa.neg().add(t.abs().scale(2))
                } else {
                    xa
                };
                signed(neg, m)
            },
            FunctionType::Sillyfold => {
                let folded = xa.sub(t.mul(Sample { raw: QUARTER })).rem(t).sub(
                    t.mul(Sample { raw: HALF }),
                ).abs();
                signed(neg, xa.scale(4).div(t).mul(folded))
            },
            FunctionType::Floor => signed(neg, xa.mul(t.abs()).floor().div(t).abs()),
            FunctionType::Round => signed(neg, xa.mul(t.abs()).round().div(t).abs()),
            FunctionType::Bitcrush => {
                let b = exp2(t.neg());
                b.mul(x.div(b).round())
            },
        }
    }
}

/// Carry a magnitude-domain result back to the input's polarity.
fn signed(neg: bool, v: Sample) -> (r: Sample)
    ensures
        !neg ==> r@ == v@,
        neg ==> r@ == fx_neg(v@),
{
    if neg {
        v.neg()
    } else {
        v
    }
}

} // verus!
