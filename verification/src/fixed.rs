//! Saturating fixed-point sample arithmetic.
//!
//! A `Sample` is one channel's instantaneous amplitude, stored as a signed
//! 64-bit raw value scaled by `ONE` (2^30): the amplitude it denotes is
//! `raw / ONE`.  Every operation computes its exact mathematical result and
//! then saturates it into `[-SAT_LIMIT, SAT_LIMIT]`, so all operations are
//! total and every value stays representable.  The saturation bound is a
//! headroom of 2^17 (about +102 dB over full scale), far above any level a
//! sane signal chain reaches, so saturation stands in for the "unbounded
//! until an explicit clip" behaviour of an ideal sample.
//!
//! Multiplication and division truncate their quotient toward zero, matching
//! the rounding of the spec-level `tdiv`.

use vstd::arithmetic::div_mod::{
    lemma_div_nonincreasing, lemma_div_pos_is_pos, lemma_fundamental_div_mod,
    lemma_fundamental_div_mod_converse, lemma_mod_bound,
};
use vstd::prelude::*;

verus! {

/// The raw value denoting an amplitude of 1.0 (2^30 fractional scaling).
pub const ONE: i64 = 1073741824;

/// Half of `ONE`; the rounding offset for round-to-nearest.
pub const HALF: i64 = 536870912;

/// Largest representable raw magnitude (2^47, an amplitude of 131072.0).
pub const SAT_LIMIT: i64 = 140737488355328;

/// Saturate an unbounded result into the representable raw range.
pub open spec fn sat(v: int) -> int {
    if v > SAT_LIMIT as int {
        SAT_LIMIT as int
    } else if v < -(SAT_LIMIT as int) {
        -(SAT_LIMIT as int)
    } else {
        v
    }
}

/// Division truncated toward zero (the rounding of Rust's integer `/`),
/// written over the Euclidean `/` of spec arithmetic.
pub open spec fn tdiv(a: int, b: int) -> int {
    if a == 0 {
        0
    } else if a > 0 && b > 0 {
        a / b
    } else if a < 0 && b < 0 {
        (a * -1) / (b * -1)
    } else if a < 0 {
        ((a * -1) / b) * -1
    } else {
        (a / (b * -1)) * -1
    }
}

/// Remainder paired with `tdiv` (the sign follows the dividend, as Rust's
/// `%` does); the remainder by zero is defined as zero.
pub open spec fn trem(a: int, b: int) -> int {
    if b == 0 {
        0
    } else if a == 0 {
        0
    } else if a > 0 && b > 0 {
        a % b
    } else if a < 0 && b < 0 {
        ((a * -1) % (b * -1)) * -1
    } else if a < 0 {
        ((a * -1) % b) * -1
    } else {
        a % (b * -1)
    }
}

/// The sign factor of a sample: 1 for zero or positive, -1 for negative.
/// Zero counts as positive, as it does for IEEE `signum` on +0.
pub open spec fn sgn(a: int) -> int {
    if a >= 0 {
        1
    } else {
        -1
    }
}

pub open spec fn fx_add(a: int, b: int) -> int {
    sat(a + b)
}

pub open spec fn fx_sub(a: int, b: int) -> int {
    sat(a - b)
}

pub open spec fn fx_neg(a: int) -> int {
    sat(-a)
}

pub open spec fn fx_abs(a: int) -> int {
    sat(if a < 0 { -a } else { a })
}

pub open spec fn fx_min(a: int, b: int) -> int {
    if a < b { a } else { b }
}

pub open spec fn fx_max(a: int, b: int) -> int {
    if a > b { a } else { b }
}

/// Product with a plain integer factor (no rescaling), saturated.
pub open spec fn fx_scale(k: int, a: int) -> int {
    sat(k * a)
}

/// Fixed-point product: the exact product rescaled by `ONE`, truncated
/// toward zero, then saturated.
pub open spec fn fx_mul(a: int, b: int) -> int {
    sat(tdiv(a * b, ONE as int))
}

/// Fixed-point quotient.  Division by zero saturates toward the dividend's
/// sign (the fixed-point stand-in for the IEEE infinities it would produce).
pub open spec fn fx_div(a: int, b: int) -> int {
    if b == 0 {
        if a > 0 {
            SAT_LIMIT as int
        } else if a < 0 {
            -(SAT_LIMIT as int)
        } else {
            0
        }
    } else {
        sat(tdiv(a * ONE, b))
    }
}

/// Fixed-point remainder; both operands share the raw scaling, so no
/// rescaling is involved.
pub open spec fn fx_rem(a: int, b: int) -> int {
    sat(trem(a, b))
}

/// Round down to the nearest whole amplitude (toward negative infinity,
/// as IEEE `floor` does).
pub open spec fn fx_floor(a: int) -> int {
    sat((a / (ONE as int)) * (ONE as int))
}

/// Round to the nearest whole amplitude, halves away from zero (as IEEE
/// `round` does).
pub open spec fn fx_round(a: int) -> int {
    if a >= 0 {
        sat(((a + HALF) / (ONE as int)) * (ONE as int))
    } else {
        sat(-((((-a) + HALF) / (ONE as int)) * (ONE as int)))
    }
}

/// The fixed-point product of nonnegative factors is nonnegative.
pub proof fn lemma_fx_mul_nonneg(a: int, b: int)
    requires
        a >= 0,
        b >= 0,
    ensures
        fx_mul(a, b) >= 0,
{
    assert(a * b >= 0) by (nonlinear_arith)
        requires
            a >= 0,
            b >= 0,
    ;
    if a * b > 0 {
        lemma_div_pos_is_pos(a * b, ONE as int);
    }
}

/// One channel's instantaneous amplitude as a saturating fixed-point value.
#[derive(Clone, Copy, PartialEq, Eq, Structural, Debug)]
pub struct Sample {
    pub raw: i64,
}

impl View for Sample {
    type V = int;

    open spec fn view(&self) -> int {
        self.raw as int
    }
}

/// Saturate a wide intermediate result back into a raw sample value.
pub(crate) fn sat_narrow(v: i128) -> (r: i64)
    ensures
        r as int == sat(v as int),
{
    if v > SAT_LIMIT as i128 {
        SAT_LIMIT
    } else if v < -(SAT_LIMIT as i128) {
        -SAT_LIMIT
    } else {
        v as i64
    }
}

/// Truncating division on wide intermediates, proved against `tdiv`.
fn tdiv_wide(a: i128, b: i128) -> (r: i128)
    requires
        b != 0,
        a != i128::MIN,
    ensures
        r as int == tdiv(a as int, b as int),
{
    proof {
        let x = a as int;
        let d = b as int;
        if x > 0 && d > 0 {
            lemma_div_pos_is_pos(x, d);
            lemma_div_nonincreasing(x, d);
        }
        if x < 0 && d < 0 {
            lemma_div_pos_is_pos(x * -1, d * -1);
            lemma_div_nonincreasing(x * -1, d * -1);
        }
        if x < 0 && d > 0 {
            lemma_div_pos_is_pos(x * -1, d);
            lemma_div_nonincreasing(x * -1, d);
        }
        if x > 0 && d < 0 {
            lemma_div_pos_is_pos(x, d * -1);
            lemma_div_nonincreasing(x, d * -1);
        }
    }
    let r = a.checked_div(b);
    r.unwrap()
}

impl Sample {
    /// Wrap a raw fixed-point value, saturating it into range.
    pub fn from_raw(raw: i64) -> (r: Sample)
        ensures
            r@ == sat(raw as int),
    {
        Sample { raw: sat_narrow(raw as i128) }
    }

    /// The sample denoting the whole amplitude `v` (so `v * ONE` raw).
    pub fn from_int(v: i64) -> (r: Sample)
        ensures
            r@ == sat(v as int * ONE),
    {
        proof {
            assert((i64::MIN as int) * (ONE as int) <= v as int * (ONE as int) <= (i64::MAX
                as int) * (ONE as int)) by (nonlinear_arith)
                requires
                    i64::MIN <= v <= i64::MAX,
            ;
        }
        Sample { raw: sat_narrow(v as i128 * ONE as i128) }
    }

    pub fn zero() -> (r: Sample)
        ensures
            r@ == 0,
    {
        Sample { raw: 0 }
    }

    pub fn one() -> (r: Sample)
        ensures
            r@ == ONE as int,
    {
        Sample { raw: ONE }
    }

    pub fn add(self, rhs: Sample) -> (r: Sample)
        ensures
            r@ == fx_add(self@, rhs@),
    {
        Sample { raw: sat_narrow(self.raw as i128 + rhs.raw as i128) }
    }

    pub fn sub(self, rhs: Sample) -> (r: Sample)
        ensures
            r@ == fx_sub(self@, rhs@),
    {
        Sample { raw: sat_narrow(self.raw as i128 - rhs.raw as i128) }
    }

    pub fn neg(self) -> (r: Sample)
        ensures
            r@ == fx_neg(self@),
    {
        Sample { raw: sat_narrow(-(self.raw as i128)) }
    }

    pub fn abs(self) -> (r: Sample)
        ensures
            r@ == fx_abs(self@),
    {
        if self.raw < 0 {
            Sample { raw: sat_narrow(-(self.raw as i128)) }
        } else {
            Sample { raw: sat_narrow(self.raw as i128) }
        }
    }

    pub fn min(self, rhs: Sample) -> (r: Sample)
        ensures
            r@ == fx_min(self@, rhs@),
    {
        if self.raw < rhs.raw {
            self
        } else {
            rhs
        }
    }

    pub fn max(self, rhs: Sample) -> (r: Sample)
        ensures
            r@ == fx_max(self@, rhs@),
    {
        if self.raw > rhs.raw {
            self
        } else {
            rhs
        }
    }

    /// The sign factor as a sample value: `ONE` or `-ONE`.
    pub fn signum(self) -> (r: Sample)
        ensures
            r@ == sgn(self@) * ONE,
    {
        if self.raw >= 0 {
            Sample { raw: ONE }
        } else {
            Sample { raw: -ONE }
        }
    }

    pub fn is_negative(self) -> (r: bool)
        ensures
            r == (self@ < 0),
    {
        self.raw < 0
    }

    pub fn mul(self, rhs: Sample) -> (r: Sample)
        ensures
            r@ == fx_mul(self@, rhs@),
    {
        let a = self.raw as i128;
        let b = rhs.raw as i128;
        proof {
            assert(-0x40000000000000000000000000000000 <= a as int * b as int
                <= 0x40000000000000000000000000000000) by (nonlinear_arith)
                requires
                    -0x8000000000000000 <= a <= 0x8000000000000000,
                    -0x8000000000000000 <= b <= 0x8000000000000000,
            ;
        }
        let p = a * b;
        Sample { raw: sat_narrow(tdiv_wide(p, ONE as i128)) }
    }

    pub fn div(self, rhs: Sample) -> (r: Sample)
        ensures
            r@ == fx_div(self@, rhs@),
    {
        if rhs.raw == 0 {
            if self.raw > 0 {
                Sample { raw: SAT_LIMIT }
            } else if self.raw < 0 {
                Sample { raw: -SAT_LIMIT }
            } else {
                Sample { raw: 0 }
            }
        } else {
            let a = self.raw as i128;
            proof {
                assert(-0x40000000000000000000000000000000 <= a as int * (ONE as int)
                    <= 0x40000000000000000000000000000000) by (nonlinear_arith)
                    requires
                        -0x8000000000000000 <= a <= 0x8000000000000000,
                ;
            }
            let n = a * ONE as i128;
            Sample { raw: sat_narrow(tdiv_wide(n, rhs.raw as i128)) }
        }
    }

    pub fn rem(self, rhs: Sample) -> (r: Sample)
        ensures
            r@ == fx_rem(self@, rhs@),
    {
        if rhs.raw == 0 {
            Sample { raw: 0 }
        } else if self.raw == i64::MIN && rhs.raw == -1 {
            proof {
                lemma_fundamental_div_mod_converse(-(i64::MIN as int), 1, -(i64::MIN as int), 0);
            }
            Sample { raw: 0 }
        } else {
            proof {
                let x = self@;
                let d = rhs@;
                if x > 0 && d > 0 {
                    lemma_mod_bound(x, d);
                }
                if x < 0 && d < 0 {
                    lemma_mod_bound(x * -1, d * -1);
                }
                if x < 0 && d > 0 {
                    lemma_mod_bound(x * -1, d);
                }
                if x > 0 && d < 0 {
                    lemma_mod_bound(x, d * -1);
                }
            }
            let w = (self.raw as i128).checked_rem(rhs.raw as i128);
            let v = w.unwrap();
            Sample { raw: sat_narrow(v) }
        }
    }

    /// Product with a plain integer factor.
    pub fn scale(self, k: i64) -> (r: Sample)
        ensures
            r@ == fx_scale(k as int, self@),
    {
        let a = self.raw as i128;
        let b = k as i128;
        proof {
            assert(-0x40000000000000000000000000000000 <= b as int * a as int
                <= 0x40000000000000000000000000000000) by (nonlinear_arith)
                requires
                    -0x8000000000000000 <= a <= 0x8000000000000000,
                    -0x8000000000000000 <= b <= 0x8000000000000000,
            ;
        }
        Sample { raw: sat_narrow(b * a) }
    }

    pub fn floor(self) -> (r: Sample)
        ensures
            r@ == fx_floor(self@),
    {
        let q = ediv_unit(self.raw);
        Sample { raw: sat_narrow((q as i128) * (ONE as i128)) }
    }

    pub fn round(self) -> (r: Sample)
        ensures
            r@ == fx_round(self@),
    {
        if self.raw >= 0 {
            let q = udiv_unit((self.raw as i128 + HALF as i128) as u128);
            proof {
                lemma_fundamental_div_mod(self@ + HALF, ONE as int);
            }
            Sample { raw: sat_narrow((q as i128) * (ONE as i128)) }
        } else {
            let q = udiv_unit((-(self.raw as i128) + HALF as i128) as u128);
            proof {
                lemma_fundamental_div_mod(-self@ + HALF, ONE as int);
            }
            Sample { raw: sat_narrow(-((q as i128) * (ONE as i128))) }
        }
    }
}

/// Division of a nonnegative intermediate by `ONE`.
fn udiv_unit(m: u128) -> (q: u128)
    ensures
        q as int == m as int / (ONE as int),
{
    m / (ONE as u128)
}

/// Euclidean (flooring) division of a raw value by `ONE`.
pub(crate) fn ediv_unit(a: i64) -> (q: i64)
    ensures
        q as int == a as int / (ONE as int),
{
    if a >= 0 {
        let q = udiv_unit(a as u128);
        proof {
            lemma_fundamental_div_mod(a as int, ONE as int);
        }
        q as i64
    } else {
        let m = -(a as i128);
        let q = udiv_unit((m + (ONE as i128 - 1)) as u128);
        proof {
            lemma_fundamental_div_mod(m as int + (ONE - 1), ONE as int);
            let qc = (m as int + (ONE - 1)) / (ONE as int);
            let rc = (m as int + (ONE - 1)) % (ONE as int);
            lemma_fundamental_div_mod_converse(a as int, ONE as int, -qc, (ONE - 1) - rc);
        }
        -(q as i64)
    }
}

/// Euclidean remainder of a wide intermediate by a positive modulus: the
/// result is always in `[0, m)`.
pub(crate) fn emod_pos(a: i128, m: i64) -> (r: i64)
    requires
        0 < m,
        a != i128::MIN,
    ensures
        r as int == (a as int) % (m as int),
        0 <= r < m,
{
    proof {
        lemma_mod_bound(a as int, m as int);
    }
    if a >= 0 {
        proof {
            lemma_fundamental_div_mod(a as int, m as int);
        }
        (a as u128 % m as u128) as i64
    } else {
        let m0 = ((-a) as u128) % (m as u128);
        proof {
            lemma_fundamental_div_mod(-(a as int), m as int);
            let qc = (-(a as int)) / (m as int);
            let rc = (-(a as int)) % (m as int);
            assert((-qc) * (m as int) == -((m as int) * qc)) by (nonlinear_arith);
            assert((-qc - 1) * (m as int) == -((m as int) * qc) - m) by (nonlinear_arith);
            if m0 == 0 {
                lemma_fundamental_div_mod_converse(a as int, m as int, -qc, 0);
            } else {
                lemma_fundamental_div_mod_converse(a as int, m as int, -qc - 1, m - rc);
            }
        }
        if m0 == 0 {
            0
        } else {
            m - (m0 as i64)
        }
    }
}

} // verus!
