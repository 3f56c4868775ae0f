//! Fixed-point circular functions.
//!
//! Angles are raw fixed-point radians (see [`crate::fixed::FX_ONE`]).  The
//! engine's convention: an angle is first reduced into `[0, TAU_FX)`, and
//! the half wave of the sine on `[0, PI_FX]` is the parabola
//! `4 * x * (PI_FX - x) / PI_SQ_FX`, which meets the true sine at `0`,
//! `PI_FX` and the crest.  The cosine is the sine shifted a quarter turn.
//! Both functions are total, deterministic, and stay inside
//! `[-FX_ONE, FX_ONE]`.

use crate::fixed::FX_ONE;
use vstd::arithmetic::div_mod::{
    lemma_div_is_ordered, lemma_div_pos_is_pos, lemma_mod_multiples_vanish, lemma_small_mod,
};
use vstd::arithmetic::mul::{lemma_mul_nonnegative, lemma_mul_upper_bound};
use vstd::prelude::*;

verus! {

/// A half turn, in raw fixed-point radians.
pub const PI_FX: i64 = 3_141_593;

/// A full turn: exactly `2 * PI_FX`.
pub const TAU_FX: i64 = 6_283_186;

/// A quarter turn.
pub const HALF_PI_FX: i64 = 1_570_796;

/// The square of a half turn, divided by the scale: the denominator of
/// the half-wave parabola.
pub const PI_SQ_FX: i64 = 9_869_604;

/// The half-wave parabola on `[0, PI_FX]`.
pub open spec fn spec_half_sine(x: int) -> int {
    (4 * x * (PI_FX as int - x)) / (PI_SQ_FX as int)
}

/// The sine of an already reduced angle `r` in `[0, TAU_FX)`.
pub open spec fn spec_sin_core(r: int) -> int {
    if r <= PI_FX as int {
        spec_half_sine(r)
    } else {
        -spec_half_sine(r - PI_FX as int)
    }
}

/// The sine of any raw angle.
pub open spec fn spec_sin(a: int) -> int {
    spec_sin_core(a % (TAU_FX as int))
}

/// The cosine of any raw angle: the sine a quarter turn ahead.
pub open spec fn spec_cos(a: int) -> int {
    spec_sin_core((a % (TAU_FX as int) + HALF_PI_FX as int) % (TAU_FX as int))
}

/// The half-wave parabola, evaluated exactly.
fn half_sine(x: i64) -> (r: i64)
    requires
        0 <= x <= PI_FX,
    ensures
        r as int == spec_half_sine(x as int),
        0 <= r <= FX_ONE,
{
    proof {
        let xi = x as int;
        lemma_mul_nonnegative(4 * xi, PI_FX as int - xi);
        lemma_mul_upper_bound(4 * xi, 4 * (PI_FX as int), PI_FX as int - xi, PI_FX as int);
        assert(4 * xi * (PI_FX as int - xi) <= (PI_FX as int) * (PI_FX as int))
            by (nonlinear_arith)
            requires
                0 <= xi <= PI_FX as int,
        ;
        lemma_div_pos_is_pos(4 * xi * (PI_FX as int - xi), PI_SQ_FX as int);
        lemma_div_is_ordered(
            4 * xi * (PI_FX as int - xi),
            (PI_FX as int) * (PI_FX as int),
            PI_SQ_FX as int,
        );
    }
    let num: u64 = 4 * (x as u64) * ((PI_FX - x) as u64);
    let q: u64 = num / (PI_SQ_FX as u64);
    q as i64
}

/// Reduces a raw angle into `[0, TAU_FX)`; the result is the Euclidean
/// remainder of the angle by a full turn.
pub fn reduce_angle(a: i64) -> (r: i64)
    ensures
        r as int == (a as int) % (TAU_FX as int),
        0 <= r < TAU_FX,
{
    let shifted: u128 = ((a as i128) + 6_283_186i128 * 1_468_000_000_000i128) as u128;
    let m: u128 = shifted % (TAU_FX as u128);
    proof {
        lemma_mod_multiples_vanish(1_468_000_000_000int, a as int, TAU_FX as int);
    }
    m as i64
}

/// The sine of an already reduced angle.
fn sin_core(red: i64) -> (r: i64)
    requires
        0 <= red < TAU_FX,
    ensures
        r as int == spec_sin_core(red as int),
        -FX_ONE <= r <= FX_ONE,
{
    if red <= PI_FX {
        half_sine(red)
    } else {
        let h: i64 = half_sine(red - PI_FX);
        -h
    }
}

/// The fixed-point sine of any raw angle.
pub fn sin_fx(a: i64) -> (r: i64)
    ensures
        r as int == spec_sin(a as int),
        -FX_ONE <= r <= FX_ONE,
{
    let red: i64 = reduce_angle(a);
    sin_core(red)
}

/// The fixed-point cosine of any raw angle.
pub fn cos_fx(a: i64) -> (r: i64)
    ensures
        r as int == spec_cos(a as int),
        -FX_ONE <= r <= FX_ONE,
{
    let red: i64 = reduce_angle(a);
    let mut sh: i64 = red + HALF_PI_FX;
    proof {
        if sh < TAU_FX {
            lemma_small_mod(sh as nat, TAU_FX as nat);
        } else {
            lemma_mod_multiples_vanish(-1, sh as int, TAU_FX as int);
            lemma_small_mod((sh - TAU_FX) as nat, TAU_FX as nat);
        }
    }
    if sh >= TAU_FX {
        sh = sh - TAU_FX;
    }
    sin_core(sh)
}

} // verus!
