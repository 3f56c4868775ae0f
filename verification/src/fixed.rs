//! Fixed-point scalar arithmetic.
//!
//! Every scalar of the engine is an `i64` holding a real value scaled by
//! [`FX_ONE`]: the raw value `1_000_000` stands for `1.0`.  Multiplication
//! of two scaled values divides the double-width product back by the scale,
//! rounding toward zero.  Results are confined to the symmetric window
//! `[-i64::MAX, i64::MAX]`; an operation whose exact result falls outside
//! it reports `None`, and the engine treats that like a point that left the
//! bounds (the particle stops).

use vstd::prelude::*;
use vstd::arithmetic::div_mod::lemma_div_pos_is_pos;
use vstd::arithmetic::mul::{
    lemma_mul_cancels_negatives, lemma_mul_nonnegative, lemma_mul_unary_negation,
    lemma_mul_upper_bound,
};

verus! {

/// The fixed-point scale: this many raw units stand for `1.0`.
pub const FX_ONE: i64 = 1_000_000;

/// The absolute value of a mathematical integer.
pub open spec fn abs_val(v: int) -> int {
    if v >= 0 {
        v
    } else {
        -v
    }
}

/// True when `v` lies in the symmetric window of raw values the engine
/// keeps: `[-i64::MAX, i64::MAX]`.
pub open spec fn in_win(v: int) -> bool {
    -(i64::MAX as int) <= v <= i64::MAX as int
}

/// The exact fixed-point product of two raw values: `a * b / FX_ONE`,
/// rounded toward zero.
pub open spec fn fx(a: int, b: int) -> int {
    let p = a * b;
    if p >= 0 {
        p / (FX_ONE as int)
    } else {
        -((-p) / (FX_ONE as int))
    }
}

/// The magnitudes of two integers multiply to the magnitude of their
/// product, whose sign follows the factors' signs.
proof fn lemma_abs_mul(a: int, b: int)
    ensures
        abs_val(a) * abs_val(b) == abs_val(a * b),
        ((a < 0) != (b < 0)) ==> a * b <= 0,
        ((a < 0) == (b < 0)) ==> a * b >= 0,
{
    if a >= 0 && b >= 0 {
        lemma_mul_nonnegative(a, b);
    } else if a >= 0 {
        lemma_mul_unary_negation(a, b);
        lemma_mul_nonnegative(a, -b);
    } else if b >= 0 {
        lemma_mul_unary_negation(a, b);
        lemma_mul_nonnegative(-a, b);
    } else {
        lemma_mul_cancels_negatives(a, b);
        lemma_mul_nonnegative(-a, -b);
    }
}

/// The magnitude of `v`, widened to `u64`.
fn abs_u64(v: i64) -> (r: u64)
    ensures
        r as int == abs_val(v as int),
{
    if v >= 0 {
        v as u64
    } else {
        (-(v as i128)) as u64
    }
}

/// Fixed-point multiplication: `Some(a * b / FX_ONE)` rounded toward
/// zero, or `None` when the exact result falls outside the window.
pub fn fx_mul(a: i64, b: i64) -> (r: Option<i64>)
    ensures
        r is Some <==> in_win(fx(a as int, b as int)),
        r matches Some(v) ==> v as int == fx(a as int, b as int),
{
    let neg: bool = (a < 0) != (b < 0);
    let aa: u64 = abs_u64(a);
    let bb: u64 = abs_u64(b);
    proof {
        lemma_mul_upper_bound(aa as int, u64::MAX as int, bb as int, u64::MAX as int);
        lemma_abs_mul(a as int, b as int);
    }
    let p: u128 = (aa as u128) * (bb as u128);
    let q: u128 = p / (FX_ONE as u128);
    proof {
        lemma_div_pos_is_pos(abs_val((a as int) * (b as int)), FX_ONE as int);
    }
    assert(q == abs_val(fx(a as int, b as int)));
    if q > (i64::MAX as u128) {
        None
    } else {
        if neg {
            Some(-(q as i64))
        } else {
            Some(q as i64)
        }
    }
}

/// Addition within the window: `Some(a + b)`, or `None` when the exact
/// sum falls outside it.
pub fn add_win(a: i64, b: i64) -> (r: Option<i64>)
    ensures
        r is Some <==> in_win(a as int + b as int),
        r matches Some(v) ==> v as int == a as int + b as int,
{
    let s: i128 = (a as i128) + (b as i128);
    if s >= -(i64::MAX as i128) && s <= (i64::MAX as i128) {
        Some(s as i64)
    } else {
        None
    }
}

} // verus!
