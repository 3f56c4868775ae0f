//! A deterministic flow-field particle engine in fixed-point arithmetic.
//!
//! A particle wanders through a pseudo-random but reproducible direction
//! field, accumulating a trail of visited points; optional bounds stop it
//! when a step would leave them.  All coordinates and tunables are scalars
//! scaled by [`fixed::FX_ONE`], so every quantity is an exact integer and
//! every run of the engine is reproducible bit for bit.

pub mod colour_gen;
pub mod fixed;
pub mod noise;
pub mod particle;
pub mod trig;

use vstd::prelude::*;

verus! {

/// True when `value` lies in the closed interval `[start, end]`.
pub fn check_within_bounds(start: i64, end: i64, value: i64) -> (r: bool)
    ensures
        r == (start <= value && value <= end),
{
    value >= start && value <= end
}

} // verus!
