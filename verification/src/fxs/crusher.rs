//! Bit crushing: quantizing a sample to a step size, as an independent
//! stage with its own step parameter.

use crate::fixed::Sample;
use crate::fxs::waveshaper::{curve_bitcrush, curve_floor, curve_round, FunctionType};
use vstd::prelude::*;

verus! {

#[derive(Clone, Copy, PartialEq, Eq, Structural, Debug)]
pub enum CrushType {
    Floor,
    Round,
    Bits,
    BitsQ,
    BitsQU16,
}

/// What each crush strategy returns for an input `x` and step parameter
/// `a`.  The `BitsQ` variants historically added and subtracted a large
/// constant after quantizing, a numerically inert pair; they are defined
/// as the plain `Bits` quantization.
pub open spec fn spec_crush(ty: CrushType, x: int, a: int) -> int {
    match ty {
        CrushType::Floor => curve_floor(x, a),
        CrushType::Round => curve_round(x, a),
        CrushType::Bits => curve_bitcrush(x, a),
        CrushType::BitsQ => curve_bitcrush(x, a),
        CrushType::BitsQU16 => curve_bitcrush(x, a),
    }
}

impl CrushType {
    /// Quantize a sample by this strategy with the given step parameter.
    pub fn apply(&self, x: Sample, a: Sample) -> (r: Sample)
        ensures
            r@ == spec_crush(*self, x@, a@),
    {
        match self {
            CrushType::Floor => FunctionType::Floor.apply(x, a),
            CrushType::Round => FunctionType::Round.apply(x, a),
            CrushType::Bits => FunctionType::Bitcrush.apply(x, a),
            CrushType::BitsQ => FunctionType::Bitcrush.apply(x, a),
            CrushType::BitsQU16 => FunctionType::Bitcrush.apply(x, a),
        }
    }
}

} // verus!
