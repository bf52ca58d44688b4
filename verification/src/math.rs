//! Fixed-point approximations of the transcendental functions the transfer
//! curves and filter design need.
//!
//! None of these claims to be the real function: each one's contract states
//! the exact rational formula it computes, which is a documented polynomial
//! or rational approximation of the ideal curve.  The pipeline's own
//! contracts are stated over these spec-level formulas, so what the verified
//! code computes is pinned down exactly even where the ideal value is
//! irrational.

use crate::fixed::{
    ediv_unit, emod_pos, fx_add, fx_div, fx_max, fx_min, fx_mul, fx_neg, fx_scale, fx_sub,
    lemma_fx_mul_nonneg, sat, Sample, ONE, SAT_LIMIT,
};
use vstd::arithmetic::div_mod::{lemma_div_pos_is_pos, lemma_fundamental_div_mod};
use vstd::arithmetic::power2::{lemma2_to64, lemma_pow2_strictly_increases, pow2};
use vstd::prelude::*;

verus! {

/// The circle constant and friends, scaled by `ONE` and rounded to the
/// nearest raw value.
pub const PI: i64 = 3373259426;

pub const TWO_PI: i64 = 6746518852;

pub const HALF_PI: i64 = 1686629713;

/// `5 * PI^2`, the denominator constant of the sine approximation.
pub const FIVE_PI_SQ: i64 = 52987035159;

/// `27`, the constant of the rational tanh approximation.
pub const TANH_27: i64 = 28991029248;

/// `3`, the input magnitude beyond which tanh is taken as `1`.
pub const TANH_SAT_IN: i64 = 3221225472;

/// Cubic coefficients of `2^f - 1` on `f` in `[0, 1)`.
pub const EXP2_C1: i64 = 747298540;

pub const EXP2_C2: i64 = 241048597;

pub const EXP2_C3: i64 = 85394687;

/// Cubic coefficients of `log2(1 + f)` on `f` in `[0, 1)`.
pub const LOG2_A: i64 = 1546617723;

pub const LOG2_B: i64 = -693100347;

pub const LOG2_C: i64 = 220224448;

/// `20 / log2(10)`: decibels per octave of gain.
pub const DB_PER_LOG2: i64 = 6464569932;

/// The gain below which a level is treated as silence (`1e-5`, i.e. -100 dB).
pub const MINUS_INFINITY_GAIN: i64 = 10737;

/// What the hyperbolic tangent helper computes: the rational approximation
/// `a * (27 + a^2) / (27 + 9 a^2)`, clamped into `[-1, 1]`, taken as exactly
/// `1` in magnitude beyond `|a| = 3`.
pub open spec fn spec_tanh(a: int) -> int {
    if a > TANH_SAT_IN as int {
        ONE as int
    } else if a < -(TANH_SAT_IN as int) {
        -(ONE as int)
    } else {
        let a2 = fx_mul(a, a);
        let num = fx_mul(a, fx_add(TANH_27 as int, a2));
        let den = fx_add(TANH_27 as int, fx_scale(9, a2));
        fx_max(fx_min(fx_div(num, den), ONE as int), -(ONE as int))
    }
}

/// Hyperbolic tangent (saturating sigmoid), by the formula of `spec_tanh`.
pub fn tanh(x: Sample) -> (r: Sample)
    ensures
        r@ == spec_tanh(x@),
{
    if x.raw > TANH_SAT_IN {
        Sample::one()
    } else if x.raw < -TANH_SAT_IN {
        Sample::one().neg()
    } else {
        let a2 = x.mul(x);
        let num = x.mul(Sample { raw: TANH_27 }.add(a2));
        let den = Sample { raw: TANH_27 }.add(a2.scale(9));
        num.div(den).min(Sample::one()).max(Sample::one().neg())
    }
}

/// What the base-two exponential helper computes: the input is clamped to
/// `[-32, 32]` whole octaves, split into integer part `n` and fraction `f`,
/// the fraction mapped through a cubic, and the result shifted by `2^n`.
pub open spec fn spec_exp2(a: int) -> int {
    if a >= 32 * (ONE as int) {
        SAT_LIMIT as int
    } else if a <= -32 * (ONE as int) {
        0
    } else {
        let n = a / (ONE as int);
        let f = a % (ONE as int);
        let p = exp2_frac(f);
        if n >= 0 {
            sat(p * pow2(n as nat) as int)
        } else {
            p / pow2((-n) as nat) as int
        }
    }
}

/// The cubic approximation of `2^f` for a fraction `f` in `[0, 1)`.
pub open spec fn exp2_frac(f: int) -> int {
    fx_add(
        ONE as int,
        fx_mul(
            f,
            fx_add(EXP2_C1 as int, fx_mul(f, fx_add(EXP2_C2 as int, fx_mul(f, EXP2_C3 as int)))),
        ),
    )
}

/// `2^e` as a raw (unscaled) count.
fn pow2_i64(e: u64) -> (r: i64)
    requires
        e <= 62,
    ensures
        r as int == pow2(e as nat) as int,
        r >= 1,
{
    let mut r: i64 = 1;
    let mut i: u64 = 0;
    proof {
        lemma2_to64();
    }
    while i < e
        invariant
            i <= e <= 62,
            r >= 1,
            r as int == pow2(i as nat),
        decreases e - i,
    {
        proof {
            lemma2_to64();
            vstd::arithmetic::power2::lemma2_to64_rest();
            if (i as nat) < 62 {
                lemma_pow2_strictly_increases(i as nat, 62);
            }
            assert(pow2(i as nat + 1) == 2 * pow2(i as nat)) by {
                vstd::arithmetic::power2::lemma_pow2_adds(i as nat, 1);
                lemma2_to64();
            }
        }
        r = 2 * r;
        i = i + 1;
    }
    r
}

/// Base-two exponential, by the formula of `spec_exp2`.
pub fn exp2(x: Sample) -> (r: Sample)
    ensures
        r@ == spec_exp2(x@),
{
    if x.raw >= 32 * ONE {
        Sample { raw: SAT_LIMIT }
    } else if x.raw <= -32 * ONE {
        Sample { raw: 0 }
    } else {
        let n = ediv_unit(x.raw);
        proof {
            lemma_fundamental_div_mod(x@, ONE as int);
            assert(-32 <= n && n <= 31) by (nonlinear_arith)
                requires
                    (ONE as int) * (n as int) + x@ % (ONE as int) == x@,
                    0 <= x@ % (ONE as int) < ONE as int,
                    -32 * (ONE as int) < x@ < 32 * (ONE as int),
            ;
        }
        let f = Sample { raw: x.raw - n * ONE };
        let c3 = Sample { raw: EXP2_C3 };
        let c2 = Sample { raw: EXP2_C2 };
        let c1 = Sample { raw: EXP2_C1 };
        let p = Sample::one().add(f.mul(c1.add(f.mul(c2.add(f.mul(c3))))));
        proof {
            assert(p@ == exp2_frac(x@ % (ONE as int)));
        }
        if n >= 0 {
            let sh = pow2_i64(n as u64);
            proof {
                assert(p@ as int * sh as int <= 0x40000000000000000000000000000000
                    && p@ as int * sh as int >= -0x40000000000000000000000000000000)
                    by (nonlinear_arith)
                    requires
                        -0x8000000000000000 <= p@ <= 0x8000000000000000,
                        0 <= sh <= 0x8000000000000000,
                ;
            }
            Sample { raw: crate::fixed::sat_narrow(p.raw as i128 * sh as i128) }
        } else {
            proof {
                lemma_exp2_frac_nonneg(x@ % (ONE as int));
            }
            let sh = pow2_i64((-n) as u64);
            let q = (p.raw as u128) / (sh as u128);
            proof {
                lemma_div_pos_is_pos(p@, sh as int);
                vstd::arithmetic::div_mod::lemma_div_nonincreasing(p@, sh as int);
            }
            Sample { raw: q as i64 }
        }
    }
}

/// The fractional exponential cubic never goes negative on `[0, 1)`.
proof fn lemma_exp2_frac_nonneg(f: int)
    requires
        0 <= f < ONE as int,
    ensures
        exp2_frac(f) >= 0,
{
    lemma_fx_mul_nonneg(f, EXP2_C3 as int);
    lemma_fx_mul_nonneg(f, fx_add(EXP2_C2 as int, fx_mul(f, EXP2_C3 as int)));
    lemma_fx_mul_nonneg(
        f,
        fx_add(EXP2_C1 as int, fx_mul(f, fx_add(EXP2_C2 as int, fx_mul(f, EXP2_C3 as int)))),
    );
}

/// Bhaskara's rational approximation of the sine on a magnitude `u` in
/// `[0, PI]`: `16 u (PI - u) / (5 PI^2 - 4 u (PI - u))`.
pub open spec fn sin_poly(u: int) -> int {
    let p = fx_mul(u, fx_sub(PI as int, u));
    fx_div(fx_scale(16, p), fx_sub(FIVE_PI_SQ as int, fx_scale(4, p)))
}

/// What the sine helper computes: the phase reduced into `[-PI, PI)` and
/// the magnitude mapped through `sin_poly`, with the sign restored.
pub open spec fn spec_sin_phase(v: int) -> int {
    let y = (v + PI) % (TWO_PI as int) - PI;
    if y >= 0 {
        sin_poly(y)
    } else {
        fx_neg(sin_poly(-y))
    }
}

pub open spec fn spec_sin(a: int) -> int {
    spec_sin_phase(a)
}

/// The cosine as the sine shifted a quarter turn forward.
pub open spec fn spec_cos(a: int) -> int {
    spec_sin_phase(a + HALF_PI)
}

/// The tangent as the ratio of the two (saturating where the cosine
/// approximation reaches zero).
pub open spec fn spec_tan(a: int) -> int {
    fx_div(spec_sin(a), spec_cos(a))
}

/// Phase reduction and the sine polynomial, shared by `sin` and `cos`.
fn sin_phase(v: i128) -> (r: Sample)
    requires
        -0x10000000000000000 <= v <= 0x10000000000000000,
    ensures
        r@ == spec_sin_phase(v as int),
{
    let m = emod_pos(v + PI as i128, TWO_PI);
    let y = Sample { raw: m - PI };
    let u = y.abs();
    let p = u.mul(Sample { raw: PI }.sub(u));
    let s = p.scale(16).div(Sample { raw: FIVE_PI_SQ }.sub(p.scale(4)));
    if y.raw >= 0 {
        s
    } else {
        s.neg()
    }
}

/// Sine of a phase given in radians, by the formula of `spec_sin`.
pub fn sin(x: Sample) -> (r: Sample)
    ensures
        r@ == spec_sin(x@),
{
    sin_phase(x.raw as i128)
}

/// Cosine of a phase given in radians, by the formula of `spec_cos`.
pub fn cos(x: Sample) -> (r: Sample)
    ensures
        r@ == spec_cos(x@),
{
    sin_phase(x.raw as i128 + HALF_PI as i128)
}

/// Tangent of a phase given in radians, by the formula of `spec_tan`.
pub fn tan(x: Sample) -> (r: Sample)
    ensures
        r@ == spec_tan(x@),
{
    sin(x).div(cos(x))
}

/// The whole-octave part of the base-two logarithm: how often the value
/// halves (or, negatively, doubles) before landing in `[1, 2)`.
pub open spec fn norm_exp(a: int) -> int
    decreases (if a < ONE as int {
        3 * (ONE as int) - a
    } else {
        a
    }) when a > 0
{
    if a <= 0 {
        0
    } else if a < ONE as int {
        norm_exp(2 * a) - 1
    } else if a >= 2 * (ONE as int) {
        norm_exp(a / 2) + 1
    } else {
        0
    }
}

/// The mantissa left over after `norm_exp` halvings: a value in `[1, 2)`.
pub open spec fn norm_man(a: int) -> int
    decreases (if a < ONE as int {
        3 * (ONE as int) - a
    } else {
        a
    }) when a > 0
{
    if a <= 0 {
        0
    } else if a < ONE as int {
        norm_man(2 * a)
    } else if a >= 2 * (ONE as int) {
        norm_man(a / 2)
    } else {
        a
    }
}

/// The cubic approximation of `log2(1 + f)` for a fraction `f` in `[0, 1)`.
pub open spec fn log2_frac(f: int) -> int {
    fx_mul(f, fx_add(LOG2_A as int, fx_mul(f, fx_add(LOG2_B as int, fx_mul(f, LOG2_C as int)))))
}

/// What the base-two logarithm helper computes: the octave count plus the
/// cubic of the mantissa's fraction; zero or below is mapped to zero.
pub open spec fn spec_log2(a: int) -> int {
    if a <= 0 {
        0
    } else {
        fx_add(fx_scale(norm_exp(a), ONE as int), log2_frac(norm_man(a) - ONE as int))
    }
}

/// Base-two logarithm, by the formula of `spec_log2`.
pub fn log2(x: Sample) -> (r: Sample)
    ensures
        r@ == spec_log2(x@),
{
    if x.raw <= 0 {
        Sample::zero()
    } else {
        let ghost a = x@;
        let mut m: i64 = x.raw;
        let mut e: i64 = 0;
        proof {
            lemma2_to64();
            vstd::arithmetic::power2::lemma2_to64_rest();
        }
        proof {
            assert(pow2(0) * (m as int) <= a) by {
                lemma2_to64();
            }
        }
        while m >= 2 * ONE
            invariant
                m > 0,
                0 <= e,
                a > 0,
                e == 0 ==> m as int == a,
                e > 0 ==> m as int >= ONE as int,
                norm_exp(a) == e + norm_exp(m as int),
                norm_man(a) == norm_man(m as int),
                pow2(e as nat) * (m as int) <= a,
                a < 0x8000000000000000,
            decreases m,
        {
            proof {
                lemma2_to64();
                vstd::arithmetic::power2::lemma2_to64_rest();
                vstd::arithmetic::power2::lemma_pow2_pos(e as nat);
                assert(pow2(e as nat) * 1 <= pow2(e as nat) * (m as int)) by (nonlinear_arith)
                    requires
                        pow2(e as nat) >= 1,
                        m >= 1,
                ;
                if e >= 63 {
                    lemma_pow2_strictly_increases(63, e as nat);
                    assert(false);
                }
                vstd::arithmetic::power2::lemma_pow2_adds(e as nat, 1);
                lemma_fundamental_div_mod(m as int, 2);
                assert(pow2(e as nat + 1) * ((m as int) / 2) <= pow2(e as nat) * (m as int))
                    by (nonlinear_arith)
                    requires
                        pow2(e as nat + 1) == 2 * pow2(e as nat),
                        pow2(e as nat) >= 1,
                        2 * ((m as int) / 2) <= m as int,
                        (m as int) / 2 >= 0,
                ;
            }
            m = ((m as u64) / 2) as i64;
            e = e + 1;
        }
        proof {
            if m < ONE {
                assert(e == 0 && m as int == a);
                assert(a * pow2(0) == a) by {
                    lemma2_to64();
                }
            }
        }
        while m < ONE
            invariant
                m > 0,
                m < 2 * ONE,
                a > 0,
                m < ONE ==> e <= 0,
                norm_exp(a) == e + norm_exp(m as int),
                norm_man(a) == norm_man(m as int),
                m < ONE ==> (m as int) == a * pow2((-e) as nat),
            decreases 2 * (ONE as int) - m,
        {
            proof {
                lemma2_to64();
                vstd::arithmetic::power2::lemma2_to64_rest();
                vstd::arithmetic::power2::lemma_pow2_pos((-e) as nat);
                assert(1 * pow2((-e) as nat) <= a * pow2((-e) as nat)) by (nonlinear_arith)
                    requires
                        pow2((-e) as nat) >= 0,
                        a >= 1,
                ;
                if -e >= 30 {
                    lemma_pow2_strictly_increases(30, (-e) as nat);
                    assert(false);
                }
                vstd::arithmetic::power2::lemma_pow2_adds((-e) as nat, 1);
                assert(2 * (a * pow2((-e) as nat)) == a * (2 * pow2((-e) as nat)))
                    by (nonlinear_arith);
            }
            m = m * 2;
            e = e - 1;
        }
        let f = Sample { raw: m - ONE };
        let cc = Sample { raw: LOG2_C };
        let cb = Sample { raw: LOG2_B };
        let ca = Sample { raw: LOG2_A };
        let frac = f.mul(ca.add(f.mul(cb.add(f.mul(cc)))));
        Sample { raw: ONE }.scale(e).add(frac)
    }
}

/// What the gain-to-decibel helper computes: `20 * log10` of the gain, with
/// gains at or below `MINUS_INFINITY_GAIN` floored to that threshold first
/// (so silence reads as -100 dB instead of diverging).
pub open spec fn spec_gain_to_db(g: int) -> int {
    fx_mul(spec_log2(fx_max(g, MINUS_INFINITY_GAIN as int)), DB_PER_LOG2 as int)
}

/// Decibel value of a linear gain, by the formula of `spec_gain_to_db`.
pub fn gain_to_db(g: Sample) -> (r: Sample)
    ensures
        r@ == spec_gain_to_db(g@),
{
    log2(g.max(Sample { raw: MINUS_INFINITY_GAIN })).mul(Sample { raw: DB_PER_LOG2 })
}

/// What the square-root helper returns for a positive sample: the unique
/// fixed-point value whose square is the largest one not exceeding the
/// input.  Zero and negative samples map to zero.
pub open spec fn spec_sqrt(a: int) -> int {
    if a <= 0 {
        0
    } else {
        choose|r: int|
            0 <= r && #[trigger] (r * r) <= sat(a) * (ONE as int) && sat(a) * (ONE as int) < (r
                + 1) * (r + 1)
    }
}

/// The integer square root is unique.
proof fn lemma_sqrt_unique(n: int, r1: int, r2: int)
    requires
        0 <= r1,
        0 <= r2,
        r1 * r1 <= n,
        n < (r1 + 1) * (r1 + 1),
        r2 * r2 <= n,
        n < (r2 + 1) * (r2 + 1),
    ensures
        r1 == r2,
{
    assert(r1 == r2) by (nonlinear_arith)
        requires
            0 <= r1,
            0 <= r2,
            r1 * r1 <= n,
            n < (r1 + 1) * (r1 + 1),
            r2 * r2 <= n,
            n < (r2 + 1) * (r2 + 1),
    ;
}

/// Binary search for the integer square root of a wide intermediate.
fn usqrt(n: u128) -> (r: u128)
    requires
        n < 0x40000000000000000000000000,
    ensures
        r * r <= n,
        n < (r + 1) * (r + 1),
        r < 0x8000000000000,
{
    let mut lo: u128 = 0;
    let mut hi: u128 = 0x8000000000000;
    proof {
        assert((0x8000000000000 as int) * (0x8000000000000 as int) > n as int);
    }
    while lo + 1 < hi
        invariant
            lo < hi,
            hi <= 0x8000000000000,
            (lo as int) * (lo as int) <= n as int,
            (n as int) < (hi as int) * (hi as int),
        decreases hi - lo,
    {
        let mid = lo + (hi - lo) / 2;
        proof {
            assert((mid as int) * (mid as int) < 0x40000000000000000000000000)
                by (nonlinear_arith)
                requires
                    0 <= mid < 0x8000000000000,
            ;
        }
        if mid * mid <= n {
            lo = mid;
        } else {
            hi = mid;
        }
    }
    lo
}

/// Square root of a nonnegative amplitude, by the contract of `spec_sqrt`.
pub fn sqrt(x: Sample) -> (r: Sample)
    ensures
        r@ == spec_sqrt(x@),
{
    if x.raw <= 0 {
        Sample::zero()
    } else {
        let v = crate::fixed::sat_narrow(x.raw as i128);
        proof {
            assert((v as int) * (ONE as int) <= 0x40000000000000000000000000) by (nonlinear_arith)
                requires
                    0 <= v <= SAT_LIMIT,
            ;
        }
        let n = (v as u128) * (ONE as u128);
        let s = usqrt(n);
        proof {
            let picked = spec_sqrt(x@);
            assert(0 <= s as int && (s as int) * (s as int) <= sat(x@) * (ONE as int) && sat(x@) * (
            ONE as int) < (s as int + 1) * (s as int + 1));
            lemma_sqrt_unique(sat(x@) * (ONE as int), picked, s as int);
        }
        Sample { raw: s as i64 }
    }
}

} // verus!

