//! A deterministic scalar noise field.
//!
//! [`NoiseField::sample`] maps a seed and a fixed-point coordinate pair to
//! a scalar in `[-FX_ONE, FX_ONE]`.  The field is value noise: a seeded
//! integer hash assigns a scalar to every lattice point (the lattice cell
//! is one whole unit wide), and the sample interpolates bilinearly between
//! the four corners of the cell around the query point.  The result is a
//! pure function of `(seed, x, y)` — equal inputs give equal outputs in
//! every process — and varies gradually between neighbouring cells.

use crate::fixed::FX_ONE;
use vstd::arithmetic::div_mod::lemma_div_is_ordered;
use vstd::arithmetic::mul::lemma_mul_inequality;
use vstd::prelude::*;

verus! {

/// Two to the thirty-second power: the hash mixes in this ring.
pub const HASH_M: u64 = 4_294_967_296;

/// The number of distinct corner values: `2 * FX_ONE + 1`.
pub const HASH_SPAN: u64 = 2_000_001;

/// The corner hash: the scalar the field assigns to lattice point
/// `(gx, gy)` under `seed`, in `[-FX_ONE, FX_ONE]`.
pub open spec fn spec_corner(seed: int, gx: int, gy: int) -> int {
    let h1 = (((seed + gx % (HASH_M as int)) % (HASH_M as int)) * 2_654_435_761) % (
    HASH_M as int);
    let h2 = (((h1 + gy % (HASH_M as int)) % (HASH_M as int)) * 2_654_435_761) % (HASH_M as int);
    let h3 = (h2 * 2_246_822_519 + 374_761_393) % (HASH_M as int);
    h3 % (HASH_SPAN as int) - FX_ONE
}

/// Linear interpolation between two corner scalars `a` and `b` at
/// fraction `t` of the cell width, rounded toward negative values of the
/// shifted form: exactly
/// `((a + FX_ONE) * (FX_ONE - t) + (b + FX_ONE) * t) / FX_ONE - FX_ONE`.
pub open spec fn spec_lerp(a: int, b: int, t: int) -> int {
    ((a + FX_ONE) * (FX_ONE as int - t) + (b + FX_ONE) * t) / (FX_ONE as int) - FX_ONE
}

/// The noise value at fixed-point coordinates `(x, y)` under `seed`:
/// bilinear interpolation of the four corner hashes of the surrounding
/// lattice cell.  Coordinates are first shifted by `2^63` so the whole
/// `i64` range addresses the lattice without signed division.
pub open spec fn spec_noise(seed: int, x: int, y: int) -> int {
    let ux = x + 0x8000_0000_0000_0000;
    let uy = y + 0x8000_0000_0000_0000;
    let cx = ux / (FX_ONE as int);
    let tx = ux % (FX_ONE as int);
    let cy = uy / (FX_ONE as int);
    let ty = uy % (FX_ONE as int);
    let c00 = spec_corner(seed, cx, cy);
    let c10 = spec_corner(seed, cx + 1, cy);
    let c01 = spec_corner(seed, cx, cy + 1);
    let c11 = spec_corner(seed, cx + 1, cy + 1);
    spec_lerp(spec_lerp(c00, c10, tx), spec_lerp(c01, c11, tx), ty)
}

/// The corner hash, computed exactly.
fn corner(seed: u32, gx: u64, gy: u64) -> (r: i64)
    ensures
        r as int == spec_corner(seed as int, gx as int, gy as int),
        -FX_ONE <= r <= FX_ONE,
{
    let h0: u64 = seed as u64;
    let h1: u64 = (((h0 + gx % HASH_M) % HASH_M) * 2_654_435_761) % HASH_M;
    let h2: u64 = (((h1 + gy % HASH_M) % HASH_M) * 2_654_435_761) % HASH_M;
    let h3: u64 = (h2 * 2_246_822_519 + 374_761_393) % HASH_M;
    let v: u64 = h3 % HASH_SPAN;
    (v as i64) - FX_ONE
}

/// Linear interpolation, computed exactly in the shifted form.
fn lerp(a: i64, b: i64, t: u64) -> (r: i64)
    requires
        -FX_ONE <= a <= FX_ONE,
        -FX_ONE <= b <= FX_ONE,
        t < FX_ONE as u64,
    ensures
        r as int == spec_lerp(a as int, b as int, t as int),
        -FX_ONE <= r <= FX_ONE,
{
    let au: u64 = (a + FX_ONE) as u64;
    let bu: u64 = (b + FX_ONE) as u64;
    let f: u64 = FX_ONE as u64;
    proof {
        lemma_mul_inequality(au as int, 2 * (FX_ONE as int), f as int - t as int);
        lemma_mul_inequality(bu as int, 2 * (FX_ONE as int), t as int);
    }
    let num: u64 = au * (f - t) + bu * t;
    let q: u64 = num / f;
    proof {
        lemma_div_is_ordered(num as int, 2 * (FX_ONE as int) * (FX_ONE as int), FX_ONE as int);
    }
    (q as i64) - FX_ONE
}

/// The reproducible scalar noise capability: one seed, no mutable state.
#[derive(Clone, Copy, PartialEq, Eq, Structural, Debug)]
pub struct NoiseField {
    /// The seed that selects one field out of the family.
    pub seed: u32,
}

impl NoiseField {
    /// A field with the given seed.
    pub fn new(seed: u32) -> (r: NoiseField)
        ensures
            r.seed == seed,
    {
        NoiseField { seed }
    }

    /// The field's scalar at fixed-point coordinates `(x, y)`: always in
    /// `[-FX_ONE, FX_ONE]`, and a pure function of the seed and the
    /// coordinates.
    pub fn sample(&self, x: i64, y: i64) -> (r: i64)
        ensures
            r as int == spec_noise(self.seed as int, x as int, y as int),
            -FX_ONE <= r <= FX_ONE,
    {
        let ux: u64 = ((x as i128) + 0x8000_0000_0000_0000i128) as u64;
        let uy: u64 = ((y as i128) + 0x8000_0000_0000_0000i128) as u64;
        let f: u64 = FX_ONE as u64;
        let cx: u64 = ux / f;
        let tx: u64 = ux % f;
        let cy: u64 = uy / f;
        let ty: u64 = uy % f;
        let c00: i64 = corner(self.seed, cx, cy);
        let c10: i64 = corner(self.seed, cx + 1, cy);
        let c01: i64 = corner(self.seed, cx, cy + 1);
        let c11: i64 = corner(self.seed, cx + 1, cy + 1);
        let l0: i64 = lerp(c00, c10, tx);
        let l1: i64 = lerp(c01, c11, tx);
        lerp(l0, l1, ty)
    }
}

} // verus!
