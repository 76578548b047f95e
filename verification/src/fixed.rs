//! Scores in fixed point: an `i64` counts millionths, so `SCORE_SCALE`
//! stands for 1.0.
use vstd::prelude::*;

verus! {

/// The fixed-point value of 1.0.
pub const SCORE_SCALE: i64 = 1_000_000;

/// `x` limited to the unit interval `[0, SCORE_SCALE]`.
pub open spec fn clamp_unit(x: int) -> int {
    if x < 0 {
        0
    } else if x > SCORE_SCALE {
        SCORE_SCALE as int
    } else {
        x
    }
}

/// Limits `x` to `[0, SCORE_SCALE]`.
pub fn clamp_score(x: i128) -> (r: i64)
    ensures
        r == clamp_unit(x as int),
        0 <= r <= SCORE_SCALE,
{
    if x < 0 {
        0
    } else if x > SCORE_SCALE as i128 {
        SCORE_SCALE
    } else {
        x as i64
    }
}

/// `a / b` rounded towards negative infinity.
pub fn div_floor(a: i128, b: i128) -> (q: i128)
    requires
        b > 0,
    ensures
        q == a / b,
{
    if a >= 0 {
        ((a as u128) / (b as u128)) as i128
    } else {
        let na: u128 = (0 - (a + 1)) as u128;
        let t: u128 = na / (b as u128);
        proof {
            // a = -(na + 1); with na = t*b + r, 0 <= r < b, floor(a/b) = -t - 1
            let r = na % (b as u128);
            vstd::arithmetic::div_mod::lemma_fundamental_div_mod(na as int, b as int);
            assert(a == (-(t as int) - 1) * b + (b - 1 - r)) by (nonlinear_arith)
                requires
                    a == -(na as int) - 1,
                    na as int == b * (t as int) + r,
            ;
            vstd::arithmetic::div_mod::lemma_fundamental_div_mod_converse(
                a as int,
                b as int,
                -(t as int) - 1,
                b - 1 - r,
            );
        }
        0 - (t as i128) - 1
    }
}

/// The score `base + step * rate * weight / SCORE_SCALE`, rounded down and
/// limited to the unit interval, computed without overflow.
pub open spec fn ramp_score(base: int, step: int, rate: int, weight: int) -> int {
    clamp_unit(base + (step * rate * weight) / (SCORE_SCALE as int))
}

/// Computes `ramp_score(base, step, rate, weight)`.
pub fn ramp(base: i64, step: usize, rate: i64, weight: i64) -> (r: i64)
    requires
        0 <= base <= SCORE_SCALE,
        0 < rate <= SCORE_SCALE,
    ensures
        r == ramp_score(base as int, step as int, rate as int, weight as int),
        0 <= r <= SCORE_SCALE,
{
    assert(0 <= step as int * rate as int <= 0x1_0000_0000_0000_0000 * 1_000_000)
        by (nonlinear_arith)
        requires
            0 <= step <= usize::MAX,
            0 < rate <= 1_000_000,
    ;
    let p: i128 = (step as i128) * (rate as i128);
    match p.checked_mul(weight as i128) {
        Some(q) => {
            assert(q == step as int * rate as int * weight as int) by (nonlinear_arith)
                requires
                    q == p * weight,
                    p == step as int * rate as int,
            ;
            let t = div_floor(q, SCORE_SCALE as i128);
            clamp_score(base as i128 + t)
        },
        None => {
            let ghost prod = p as int * weight as int;
            assert(prod == step as int * rate as int * weight as int) by (nonlinear_arith)
                requires
                    prod == p * weight,
                    p == step as int * rate as int,
            ;
            if weight > 0 {
                assert(prod >= 0) by (nonlinear_arith)
                    requires
                        prod == p * weight,
                        p >= 0,
                        weight > 0,
                ;
                assert(prod / (SCORE_SCALE as int) > SCORE_SCALE) by (nonlinear_arith)
                    requires
                        prod > i128::MAX,
                ;
                SCORE_SCALE
            } else {
                assert(prod <= 0) by (nonlinear_arith)
                    requires
                        prod == p * weight,
                        p >= 0,
                        weight <= 0,
                ;
                assert(prod / (SCORE_SCALE as int) < -SCORE_SCALE) by (nonlinear_arith)
                    requires
                        prod < i128::MIN,
                ;
                0
            }
        },
    }
}

} // verus!
