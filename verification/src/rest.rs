//! The rest-duration formula: a fixed-point logistic curve
//! `rest(w) = L / (1 + e^(-k*(w - w0)))` mapping elapsed endurance work `w`
//! to a rest duration.
//!
//! All arithmetic is integral. Values on the curve are held in Q32 fixed
//! point (scale `FIX_ONE`), `k` is given in millionths per second, and the
//! exponential is approximated by `(1 + x/2^16)^(2^16)` computed with
//! sixteen squarings, each floored and clamped. The approximation keeps the
//! two properties the formula is used for: it is exact at `w == w0`, where
//! the result is `L/2`, and it is monotone in `w`.

use vstd::arithmetic::div_mod::{
    lemma_div_is_ordered, lemma_div_is_ordered_by_denominator, lemma_div_denominator,
    lemma_div_multiples_vanish, lemma_div_pos_is_pos,
};
use vstd::arithmetic::mul::{
    lemma_mul_inequality, lemma_mul_is_commutative, lemma_mul_nonnegative,
    lemma_mul_upper_bound,
};
use vstd::prelude::*;

verus! {

/// The Q32 fixed-point unit: 2^32.
pub const FIX_ONE: u128 = 4294967296;

/// Ceiling for the fixed-point exponential: 2^56, i.e. `FIX_ONE * 2^24`.
pub const EXP_CLAMP: u128 = 72057594037927936;

/// The exponent `k * d` is capped at 16 (in millionths: 16_000_000); beyond
/// that the curve is within one part in a million of its asymptote.
pub const EXP_ARG_CAP_MICRO: u128 = 16000000;

/// The capped exponent `min(k * d, 16)` in Q32 fixed point. `k` is in
/// millionths per second, `d` in seconds.
pub open spec fn y_fix_spec(k: int, d: int) -> int {
    if k * d >= EXP_ARG_CAP_MICRO { 16 * (FIX_ONE as int) } else {
        k * d * (FIX_ONE as int) / 1000000
    }
}

/// One squaring step of the fixed-point exponential: `z^2`, rescaled,
/// floored, and clamped at `EXP_CLAMP`.
pub open spec fn exp_step_spec(z: int) -> int {
    let w = z * z / (FIX_ONE as int);
    if w > EXP_CLAMP { EXP_CLAMP as int } else {
        w
    }
}

/// `n` squaring steps applied to `z`.
pub open spec fn exp_iter_spec(z: int, n: nat) -> int
    decreases n,
{
    if n == 0 {
        z
    } else {
        exp_iter_spec(exp_step_spec(z), (n - 1) as nat)
    }
}

/// The fixed-point exponential of `y` (Q32): `(1 + y/2^16)^(2^16)`,
/// evaluated by sixteen squarings of `FIX_ONE + y / 2^16`.
pub open spec fn exp_fix_spec(y: int) -> int {
    exp_iter_spec((FIX_ONE as int) + y / 65536, 16)
}

/// The branch of the curve at or above the midpoint (`w >= w0`):
/// `l_ms / (1 + e^(-y))`, with `e^(-y)` formed as `FIX_ONE^2 / e^y`.
pub open spec fn rest_pos_spec(l_ms: int, y: int) -> int {
    l_ms * (FIX_ONE as int) / ((FIX_ONE as int) + (FIX_ONE as int) * (FIX_ONE as int)
        / exp_fix_spec(y))
}

/// The branch of the curve below the midpoint (`w < w0`):
/// `l_ms / (1 + e^y)` with `y = k * (w0 - w)`.
pub open spec fn rest_neg_spec(l_ms: int, y: int) -> int {
    l_ms * (FIX_ONE as int) / ((FIX_ONE as int) + exp_fix_spec(y))
}

/// The rest duration, in milliseconds, granted after `w` seconds of
/// endurance work: the logistic curve `l_ms / (1 + e^(-k*(w - w0)))`.
pub open spec fn rest_ms_spec(l_ms: int, k: int, w0: int, w: int) -> int {
    if w >= w0 {
        rest_pos_spec(l_ms, y_fix_spec(k, w - w0))
    } else {
        rest_neg_spec(l_ms, y_fix_spec(k, w0 - w))
    }
}

proof fn lemma_y_fix_range(k: int, d: int)
    requires
        k >= 0,
        d >= 0,
    ensures
        0 <= y_fix_spec(k, d) <= 16 * (FIX_ONE as int),
{
    lemma_mul_nonnegative(k, d);
    let p = k * d;
    if p < EXP_ARG_CAP_MICRO {
        lemma_mul_nonnegative(p, FIX_ONE as int);
        lemma_div_pos_is_pos(p * (FIX_ONE as int), 1000000);
        lemma_mul_inequality(p, EXP_ARG_CAP_MICRO as int, FIX_ONE as int);
        lemma_div_is_ordered(
            p * (FIX_ONE as int),
            (EXP_ARG_CAP_MICRO as int) * (FIX_ONE as int),
            1000000,
        );
    }
}

proof fn lemma_y_fix_monotone(k: int, d1: int, d2: int)
    requires
        k >= 0,
        0 <= d1 <= d2,
    ensures
        y_fix_spec(k, d1) <= y_fix_spec(k, d2),
{
    lemma_mul_inequality(d1, d2, k);
    lemma_mul_is_commutative(d1, k);
    lemma_mul_is_commutative(d2, k);
    let p1 = k * d1;
    let p2 = k * d2;
    lemma_mul_nonnegative(k, d1);
    if p2 < EXP_ARG_CAP_MICRO {
        lemma_mul_inequality(p1, p2, FIX_ONE as int);
        lemma_div_is_ordered(p1 * (FIX_ONE as int), p2 * (FIX_ONE as int), 1000000);
    } else if p1 < EXP_ARG_CAP_MICRO {
        lemma_y_fix_range(k, d1);
    }
}

proof fn lemma_exp_step_bounds(z: int)
    requires
        FIX_ONE <= z <= EXP_CLAMP,
    ensures
        FIX_ONE <= exp_step_spec(z) <= EXP_CLAMP,
{
    assert(z * z >= z * (FIX_ONE as int)) by (nonlinear_arith)
        requires
            z >= FIX_ONE,
    ;
    lemma_div_is_ordered(z * (FIX_ONE as int), z * z, FIX_ONE as int);
    lemma_div_multiples_vanish(z, FIX_ONE as int);
    lemma_mul_is_commutative(z, FIX_ONE as int);
}

proof fn lemma_exp_step_monotone(z1: int, z2: int)
    requires
        0 <= z1 <= z2,
    ensures
        exp_step_spec(z1) <= exp_step_spec(z2),
{
    assert(z1 * z1 <= z2 * z2) by (nonlinear_arith)
        requires
            0 <= z1 <= z2,
    ;
    lemma_div_is_ordered(z1 * z1, z2 * z2, FIX_ONE as int);
}

proof fn lemma_exp_step_nonneg(z: int)
    requires
        z >= 0,
    ensures
        exp_step_spec(z) >= 0,
{
    lemma_mul_nonnegative(z, z);
    lemma_div_pos_is_pos(z * z, FIX_ONE as int);
}

proof fn lemma_exp_iter_bounds(z: int, n: nat)
    requires
        FIX_ONE <= z <= EXP_CLAMP,
    ensures
        FIX_ONE <= exp_iter_spec(z, n) <= EXP_CLAMP,
    decreases n,
{
    if n > 0 {
        lemma_exp_step_bounds(z);
        lemma_exp_iter_bounds(exp_step_spec(z), (n - 1) as nat);
    }
}

proof fn lemma_exp_iter_monotone(z1: int, z2: int, n: nat)
    requires
        0 <= z1 <= z2,
    ensures
        exp_iter_spec(z1, n) <= exp_iter_spec(z2, n),
    decreases n,
{
    if n > 0 {
        lemma_exp_step_monotone(z1, z2);
        lemma_exp_step_nonneg(z1);
        lemma_exp_iter_monotone(exp_step_spec(z1), exp_step_spec(z2), (n - 1) as nat);
    }
}

proof fn lemma_exp_iter_one(n: nat)
    ensures
        exp_iter_spec(FIX_ONE as int, n) == FIX_ONE,
    decreases n,
{
    if n > 0 {
        lemma_div_multiples_vanish(FIX_ONE as int, FIX_ONE as int);
        assert(exp_step_spec(FIX_ONE as int) == FIX_ONE);
        lemma_exp_iter_one((n - 1) as nat);
    }
}

proof fn lemma_exp_fix_bounds(y: int)
    requires
        0 <= y <= 16 * (FIX_ONE as int),
    ensures
        FIX_ONE <= exp_fix_spec(y) <= EXP_CLAMP,
{
    lemma_div_pos_is_pos(y, 65536);
    lemma_div_is_ordered(y, 16 * (FIX_ONE as int), 65536);
    lemma_exp_iter_bounds((FIX_ONE as int) + y / 65536, 16);
}

proof fn lemma_exp_fix_monotone(y1: int, y2: int)
    requires
        0 <= y1 <= y2,
    ensures
        exp_fix_spec(y1) <= exp_fix_spec(y2),
{
    lemma_div_pos_is_pos(y1, 65536);
    lemma_div_is_ordered(y1, y2, 65536);
    lemma_exp_iter_monotone((FIX_ONE as int) + y1 / 65536, (FIX_ONE as int) + y2 / 65536, 16);
}

proof fn lemma_half_of(l_ms: int)
    requires
        l_ms >= 0,
    ensures
        l_ms * (FIX_ONE as int) / (2 * (FIX_ONE as int)) == l_ms / 2,
{
    lemma_mul_nonnegative(l_ms, FIX_ONE as int);
    lemma_div_denominator(l_ms * (FIX_ONE as int), FIX_ONE as int, 2);
    lemma_div_multiples_vanish(l_ms, FIX_ONE as int);
    lemma_mul_is_commutative(l_ms, FIX_ONE as int);
}

proof fn lemma_rest_pos_bounds(l_ms: int, y: int)
    requires
        l_ms >= 0,
        0 <= y <= 16 * (FIX_ONE as int),
    ensures
        l_ms / 2 <= rest_pos_spec(l_ms, y) <= l_ms,
{
    lemma_exp_fix_bounds(y);
    let e = exp_fix_spec(y);
    let inv = (FIX_ONE as int) * (FIX_ONE as int) / e;
    lemma_div_pos_is_pos((FIX_ONE as int) * (FIX_ONE as int), e);
    lemma_div_is_ordered_by_denominator((FIX_ONE as int) * (FIX_ONE as int), FIX_ONE as int, e);
    lemma_div_multiples_vanish(FIX_ONE as int, FIX_ONE as int);
    assert(inv <= FIX_ONE);
    let denom = (FIX_ONE as int) + inv;
    lemma_mul_nonnegative(l_ms, FIX_ONE as int);
    // Below `l_ms`: the denominator is at least `FIX_ONE`.
    lemma_div_is_ordered_by_denominator(l_ms * (FIX_ONE as int), FIX_ONE as int, denom);
    lemma_div_multiples_vanish(l_ms, FIX_ONE as int);
    lemma_mul_is_commutative(l_ms, FIX_ONE as int);
    // At least `l_ms / 2`: the denominator is at most `2 * FIX_ONE`.
    lemma_div_is_ordered_by_denominator(l_ms * (FIX_ONE as int), denom, 2 * (FIX_ONE as int));
    lemma_half_of(l_ms);
}

proof fn lemma_rest_neg_bounds(l_ms: int, y: int)
    requires
        l_ms >= 0,
        0 <= y <= 16 * (FIX_ONE as int),
    ensures
        0 <= rest_neg_spec(l_ms, y) <= l_ms / 2,
{
    lemma_exp_fix_bounds(y);
    let e = exp_fix_spec(y);
    let denom = (FIX_ONE as int) + e;
    lemma_mul_nonnegative(l_ms, FIX_ONE as int);
    lemma_div_pos_is_pos(l_ms * (FIX_ONE as int), denom);
    // At most `l_ms / 2`: the denominator is at least `2 * FIX_ONE`.
    lemma_div_is_ordered_by_denominator(l_ms * (FIX_ONE as int), 2 * (FIX_ONE as int), denom);
    lemma_half_of(l_ms);
}

proof fn lemma_rest_pos_monotone(l_ms: int, y1: int, y2: int)
    requires
        l_ms >= 0,
        0 <= y1 <= y2 <= 16 * (FIX_ONE as int),
    ensures
        rest_pos_spec(l_ms, y1) <= rest_pos_spec(l_ms, y2),
{
    lemma_exp_fix_bounds(y1);
    lemma_exp_fix_bounds(y2);
    lemma_exp_fix_monotone(y1, y2);
    let e1 = exp_fix_spec(y1);
    let e2 = exp_fix_spec(y2);
    lemma_div_is_ordered_by_denominator((FIX_ONE as int) * (FIX_ONE as int), e1, e2);
    let inv1 = (FIX_ONE as int) * (FIX_ONE as int) / e1;
    let inv2 = (FIX_ONE as int) * (FIX_ONE as int) / e2;
    lemma_div_pos_is_pos((FIX_ONE as int) * (FIX_ONE as int), e2);
    lemma_mul_nonnegative(l_ms, FIX_ONE as int);
    lemma_div_is_ordered_by_denominator(
        l_ms * (FIX_ONE as int),
        (FIX_ONE as int) + inv2,
        (FIX_ONE as int) + inv1,
    );
}

proof fn lemma_rest_neg_antitone(l_ms: int, y1: int, y2: int)
    requires
        l_ms >= 0,
        0 <= y1 <= y2 <= 16 * (FIX_ONE as int),
    ensures
        rest_neg_spec(l_ms, y2) <= rest_neg_spec(l_ms, y1),
{
    lemma_exp_fix_bounds(y1);
    lemma_exp_fix_bounds(y2);
    lemma_exp_fix_monotone(y1, y2);
    lemma_mul_nonnegative(l_ms, FIX_ONE as int);
    lemma_div_is_ordered_by_denominator(
        l_ms * (FIX_ONE as int),
        (FIX_ONE as int) + exp_fix_spec(y1),
        (FIX_ONE as int) + exp_fix_spec(y2),
    );
}

/// Law: the rest duration never leaves `[0, l_ms]`, whatever the elapsed
/// endurance time.
pub proof fn lemma_rest_bounds(l_ms: int, k: int, w0: int, w: int)
    requires
        l_ms >= 0,
        k >= 0,
        w0 >= 0,
        w >= 0,
    ensures
        0 <= rest_ms_spec(l_ms, k, w0, w) <= l_ms,
{
    if w >= w0 {
        lemma_y_fix_range(k, w - w0);
        lemma_rest_pos_bounds(l_ms, y_fix_spec(k, w - w0));
        lemma_div_pos_is_pos(l_ms, 2);
    } else {
        lemma_y_fix_range(k, w0 - w);
        lemma_rest_neg_bounds(l_ms, y_fix_spec(k, w0 - w));
        lemma_div_is_ordered(l_ms, 2 * l_ms, 2);
        lemma_div_multiples_vanish(l_ms, 2);
    }
}

/// Law: at `w == w0` the curve passes exactly through its midpoint, `l_ms / 2`.
pub proof fn lemma_rest_midpoint(l_ms: int, k: int, w0: int)
    requires
        l_ms >= 0,
    ensures
        rest_ms_spec(l_ms, k, w0, w0) == l_ms / 2,
{
    assert(k * 0 == 0) by (nonlinear_arith);
    assert(y_fix_spec(k, 0) == 0) by {
        lemma_div_pos_is_pos(0, 1000000);
        lemma_div_is_ordered(0 * (FIX_ONE as int), 0, 1000000);
    };
    lemma_exp_iter_one(16);
    assert(exp_fix_spec(0) == FIX_ONE);
    lemma_div_multiples_vanish(FIX_ONE as int, FIX_ONE as int);
    assert((FIX_ONE as int) * (FIX_ONE as int) / (FIX_ONE as int) == FIX_ONE);
    lemma_half_of(l_ms);
}

/// Law: for a nonnegative steepness `k` the rest duration is monotone in the
/// elapsed endurance time: more work never yields less rest.
pub proof fn lemma_rest_monotone(l_ms: int, k: int, w0: int, w1: int, w2: int)
    requires
        l_ms >= 0,
        k >= 0,
        w0 >= 0,
        0 <= w1 <= w2,
    ensures
        rest_ms_spec(l_ms, k, w0, w1) <= rest_ms_spec(l_ms, k, w0, w2),
{
    if w1 >= w0 {
        lemma_y_fix_range(k, w1 - w0);
        lemma_y_fix_range(k, w2 - w0);
        lemma_y_fix_monotone(k, w1 - w0, w2 - w0);
        lemma_rest_pos_monotone(l_ms, y_fix_spec(k, w1 - w0), y_fix_spec(k, w2 - w0));
    } else if w2 < w0 {
        lemma_y_fix_range(k, w0 - w1);
        lemma_y_fix_range(k, w0 - w2);
        lemma_y_fix_monotone(k, w0 - w2, w0 - w1);
        lemma_rest_neg_antitone(l_ms, y_fix_spec(k, w0 - w2), y_fix_spec(k, w0 - w1));
    } else {
        lemma_y_fix_range(k, w0 - w1);
        lemma_y_fix_range(k, w2 - w0);
        lemma_rest_neg_bounds(l_ms, y_fix_spec(k, w0 - w1));
        lemma_rest_pos_bounds(l_ms, y_fix_spec(k, w2 - w0));
    }
}

/// The capped exponent `min(k * d, 16)` in Q32 fixed point.
fn y_fix(k: u64, d: u64) -> (r: u128)
    ensures
        r == y_fix_spec(k as int, d as int),
        r <= 16 * FIX_ONE,
{
    proof {
        lemma_mul_upper_bound(k as int, u64::MAX as int, d as int, u64::MAX as int);
        lemma_y_fix_range(k as int, d as int);
    }
    let p: u128 = (k as u128) * (d as u128);
    if p >= EXP_ARG_CAP_MICRO {
        16 * FIX_ONE
    } else {
        (p * FIX_ONE) / 1000000
    }
}

/// The fixed-point exponential: sixteen clamped squarings of
/// `FIX_ONE + y / 2^16`.
fn exp_fix(y: u128) -> (r: u128)
    requires
        y <= 16 * FIX_ONE,
    ensures
        r == exp_fix_spec(y as int),
        FIX_ONE <= r <= EXP_CLAMP,
{
    let mut z: u128 = FIX_ONE + y / 65536;
    proof {
        lemma_div_pos_is_pos(y as int, 65536);
        lemma_div_is_ordered(y as int, 16 * (FIX_ONE as int), 65536);
    }
    let mut i: usize = 0;
    while i < 16
        invariant
            i <= 16,
            FIX_ONE <= z <= EXP_CLAMP,
            exp_iter_spec(z as int, (16 - i) as nat) == exp_fix_spec(y as int),
        decreases 16 - i,
    {
        proof {
            lemma_mul_upper_bound(z as int, EXP_CLAMP as int, z as int, EXP_CLAMP as int);
            lemma_exp_step_bounds(z as int);
        }
        let w: u128 = (z * z) / FIX_ONE;
        z = if w > EXP_CLAMP {
            EXP_CLAMP
        } else {
            w
        };
        i = i + 1;
    }
    z
}

/// The rest duration, in milliseconds, granted after `w_secs` seconds of
/// endurance work, on the logistic curve with ceiling `l_ms` (milliseconds),
/// steepness `k_micro` (millionths per second) and midpoint `w0_secs`
/// (seconds). The result never exceeds `l_ms`.
pub fn rest_duration_ms(l_ms: u64, k_micro: u64, w0_secs: u64, w_secs: u64) -> (r: u64)
    ensures
        r == rest_ms_spec(l_ms as int, k_micro as int, w0_secs as int, w_secs as int),
        r <= l_ms,
{
    proof {
        lemma_rest_bounds(l_ms as int, k_micro as int, w0_secs as int, w_secs as int);
    }
    if w_secs >= w0_secs {
        let y = y_fix(k_micro, w_secs - w0_secs);
        let e = exp_fix(y);
        let inv: u128 = (FIX_ONE * FIX_ONE) / e;
        let denom: u128 = FIX_ONE + inv;
        proof {
            lemma_mul_nonnegative(l_ms as int, FIX_ONE as int);
        }
        let r128: u128 = ((l_ms as u128) * FIX_ONE) / denom;
        r128 as u64
    } else {
        let y = y_fix(k_micro, w0_secs - w_secs);
        let e = exp_fix(y);
        let denom: u128 = FIX_ONE + e;
        let r128: u128 = ((l_ms as u128) * FIX_ONE) / denom;
        r128 as u64
    }
}

} // verus!
