//! The flow-field particle engine.
//!
//! A [`Particle`] owns one kinematic state: a position, a velocity, a
//! damping factor, tunables for the noise field, an optional bounding
//! rectangle, the trail of recorded points, and a stop flag.  Each call of
//! the step operation samples the noise field at the current position,
//! turns the sample into a direction, integrates the velocity and
//! position, and either records the new position or — when the candidate
//! leaves the bounds — stops the particle for good.
//!
//! Every step is pinned exactly by the mathematical transition
//! [`spec_step`], so a whole run is a pure function of the construction
//! inputs.  Arithmetic whose exact result would leave the representable
//! window (the fixed-point analogue of an overflowing or non-finite
//! sample) stops the particle with its state unchanged, mirroring how a
//! degenerate candidate position is treated as out of bounds.

use crate::check_within_bounds;
use crate::fixed::{add_win, fx, fx_mul, in_win, FX_ONE};
use crate::noise::{spec_noise, NoiseField};
use crate::trig::{cos_fx, sin_fx, spec_cos, spec_sin};
use vstd::prelude::*;

verus! {

/// A fixed-point point or vector in the plane.
#[derive(Clone, Copy, PartialEq, Eq, Structural, Debug)]
pub struct Vec2 {
    /// Horizontal component, scaled by `FX_ONE`.
    pub x: i64,
    /// Vertical component, scaled by `FX_ONE`.
    pub y: i64,
}

/// An axis-aligned rectangle given by its extreme coordinates.
///
/// A rectangle whose minimum meets or exceeds its maximum on either axis
/// is treated as containing nothing at all, so a particle bounded by it
/// stops on its very first step.
#[derive(Clone, Copy, PartialEq, Eq, Structural, Debug)]
pub struct Rect {
    /// Least contained x coordinate.
    pub min_x: i64,
    /// Greatest contained x coordinate.
    pub max_x: i64,
    /// Least contained y coordinate.
    pub min_y: i64,
    /// Greatest contained y coordinate.
    pub max_y: i64,
}

impl Rect {
    /// True when the rectangle spans a proper interval on both axes.
    pub open spec fn spec_proper(self) -> bool {
        self.min_x < self.max_x && self.min_y < self.max_y
    }

    /// True when the rectangle is proper and `p` lies inside it,
    /// boundary included.
    pub open spec fn spec_contains(self, p: Vec2) -> bool {
        self.spec_proper() && self.min_x <= p.x <= self.max_x && self.min_y <= p.y <= self.max_y
    }

    /// Containment test; an improper rectangle contains nothing.
    pub fn contains(&self, p: Vec2) -> (r: bool)
        ensures
            r == self.spec_contains(p),
    {
        self.min_x < self.max_x && self.min_y < self.max_y && check_within_bounds(
            self.min_x,
            self.max_x,
            p.x,
        ) && check_within_bounds(self.min_y, self.max_y, p.y)
    }
}

/// True when `p` lies inside the optional bounds; absent bounds admit
/// every point.
pub open spec fn within_bounds(b: Option<Rect>, p: Vec2) -> bool {
    match b {
        Option::None => true,
        Option::Some(r) => r.spec_contains(p),
    }
}

/// The mathematical state of a particle: what [`Particle`] views as.
pub struct ParticleModel {
    /// Current position.
    pub position: Vec2,
    /// Accumulated directional force, applied to the position each step.
    pub velocity: Vec2,
    /// Per-axis multiplier applied to the velocity after each move.
    pub damping: Vec2,
    /// Spatial sampling density of the noise field.
    pub frequency: i64,
    /// Magnitude of the sampled angle.
    pub amplitude: i64,
    /// Scale of the per-step directional force.
    pub step_size: i64,
    /// Seed of the noise field the particle samples.
    pub seed: u32,
    /// Optional clipping rectangle.
    pub bounds: Option<Rect>,
    /// Recorded positions, in temporal order.
    pub trail: Seq<Vec2>,
    /// Once true, further steps change nothing.
    pub stopped: bool,
}

/// The intermediate quantities of one step, as exact integers.
pub struct StepCalc {
    /// Noise-field sample coordinates: position times frequency.
    pub sx: int,
    /// See `sx`.
    pub sy: int,
    /// The sampled noise scalar.
    pub noise_v: int,
    /// The sample scaled by the amplitude, read as an angle.
    pub angle: int,
    /// Cosine of the angle.
    pub cos_v: int,
    /// Sine of the angle.
    pub sin_v: int,
    /// Noise force: the angle's direction scaled by the step size.
    pub nfx: int,
    /// See `nfx`.
    pub nfy: int,
    /// Noise force plus the caller's direction bias.
    pub bx: int,
    /// See `bx`.
    pub by: int,
    /// Biased force scaled by the caller's force multiplier.
    pub afx: int,
    /// See `afx`.
    pub afy: int,
    /// Velocity after the applied force is added.
    pub vx: int,
    /// See `vx`.
    pub vy: int,
    /// Candidate position: old position plus new velocity.
    pub cx: int,
    /// See `cx`.
    pub cy: int,
    /// Velocity after damping, kept for future steps.
    pub dvx: int,
    /// See `dvx`.
    pub dvy: int,
}

/// The exact intermediate values of one step of `p` under the given
/// direction bias and force multiplier.
pub open spec fn step_calc(p: ParticleModel, bias: Vec2, mult: Vec2) -> StepCalc {
    let sx = fx(p.position.x as int, p.frequency as int);
    let sy = fx(p.position.y as int, p.frequency as int);
    let noise_v = spec_noise(p.seed as int, sx, sy);
    let angle = fx(noise_v, p.amplitude as int);
    let cos_v = spec_cos(angle);
    let sin_v = spec_sin(angle);
    let nfx = fx(cos_v, p.step_size as int);
    let nfy = fx(sin_v, p.step_size as int);
    let bx = nfx + bias.x as int;
    let by = nfy + bias.y as int;
    let afx = fx(bx, mult.x as int);
    let afy = fx(by, mult.y as int);
    let vx = p.velocity.x as int + afx;
    let vy = p.velocity.y as int + afy;
    let cx = p.position.x as int + vx;
    let cy = p.position.y as int + vy;
    let dvx = fx(vx, p.damping.x as int);
    let dvy = fx(vy, p.damping.y as int);
    StepCalc {
        sx,
        sy,
        noise_v,
        angle,
        cos_v,
        sin_v,
        nfx,
        nfy,
        bx,
        by,
        afx,
        afy,
        vx,
        vy,
        cx,
        cy,
        dvx,
        dvy,
    }
}

/// True when every intermediate of the step stays in the representable
/// window.
pub open spec fn step_fits(p: ParticleModel, bias: Vec2, mult: Vec2) -> bool {
    let k = step_calc(p, bias, mult);
    in_win(k.sx) && in_win(k.sy) && in_win(k.angle) && in_win(k.nfx) && in_win(k.nfy) && in_win(
        k.bx,
    ) && in_win(k.by) && in_win(k.afx) && in_win(k.afy) && in_win(k.vx) && in_win(k.vy) && in_win(
        k.cx,
    ) && in_win(k.cy) && in_win(k.dvx) && in_win(k.dvy)
}

/// One step of the engine, as a mathematical transition.
///
/// A stopped particle is left as it is.  If any intermediate leaves the
/// representable window the particle stops with its state otherwise
/// unchanged.  Otherwise the velocity is integrated and damped; the
/// candidate position is recorded when the bounds admit it, and the
/// particle stops — position and trail unchanged, the updated velocity
/// kept — when they do not.
pub open spec fn spec_step(p: ParticleModel, bias: Vec2, mult: Vec2) -> ParticleModel {
    if p.stopped {
        p
    } else if !step_fits(p, bias, mult) {
        ParticleModel { stopped: true, ..p }
    } else {
        let k = step_calc(p, bias, mult);
        let vel = Vec2 { x: k.dvx as i64, y: k.dvy as i64 };
        let cand = Vec2 { x: k.cx as i64, y: k.cy as i64 };
        if within_bounds(p.bounds, cand) {
            ParticleModel { position: cand, velocity: vel, trail: p.trail.push(cand), ..p }
        } else {
            ParticleModel { velocity: vel, stopped: true, ..p }
        }
    }
}

/// `n` steps of the engine from `p`, all with the same bias and
/// multiplier.
pub open spec fn spec_run(p: ParticleModel, bias: Vec2, mult: Vec2, n: nat) -> ParticleModel
    decreases n,
{
    if n == 0 {
        p
    } else {
        spec_step(spec_run(p, bias, mult, (n - 1) as nat), bias, mult)
    }
}

/// A particle wandering through a noise field.
#[derive(Debug)]
pub struct Particle {
    position: Vec2,
    velocity: Vec2,
    damping: Vec2,
    frequency: i64,
    amplitude: i64,
    step_size: i64,
    noise: NoiseField,
    bounds: Option<Rect>,
    trail: Vec<Vec2>,
    stopped: bool,
}

impl View for Particle {
    type V = ParticleModel;

    closed spec fn view(&self) -> ParticleModel {
        ParticleModel {
            position: self.position,
            velocity: self.velocity,
            damping: self.damping,
            frequency: self.frequency,
            amplitude: self.amplitude,
            step_size: self.step_size,
            seed: self.noise.seed,
            bounds: self.bounds,
            trail: self.trail@,
            stopped: self.stopped,
        }
    }
}

impl Particle {
    /// A fresh particle at `(x, y)` with an empty trail, zero velocity,
    /// no damping decay, and the default tunables: frequency `0.001`,
    /// amplitude `6.0`, step size `0.2` (all in fixed point).
    pub fn new(x: i64, y: i64, bounds: Option<Rect>, noise: NoiseField) -> (r: Particle)
        ensures
            r@ == (ParticleModel {
                position: Vec2 { x, y },
                velocity: Vec2 { x: 0, y: 0 },
                damping: Vec2 { x: FX_ONE, y: FX_ONE },
                frequency: 1_000,
                amplitude: 6_000_000,
                step_size: 200_000,
                seed: noise.seed,
                bounds,
                trail: Seq::empty(),
                stopped: false,
            }),
    {
        Particle {
            position: Vec2 { x, y },
            velocity: Vec2 { x: 0, y: 0 },
            damping: Vec2 { x: FX_ONE, y: FX_ONE },
            frequency: 1_000,
            amplitude: 6_000_000,
            step_size: 200_000,
            noise,
            bounds,
            trail: Vec::new(),
            stopped: false,
        }
    }

    /// The same particle with the given noise frequency.
    pub fn set_frequency(self, f: i64) -> (r: Self)
        ensures
            r@ == (ParticleModel { frequency: f, ..self@ }),
    {
        Particle { frequency: f, ..self }
    }

    /// The same particle with the given noise amplitude.
    pub fn set_amplitude(self, a: i64) -> (r: Self)
        ensures
            r@ == (ParticleModel { amplitude: a, ..self@ }),
    {
        Particle { amplitude: a, ..self }
    }

    /// The same particle with the given step size.
    pub fn set_step(self, s: i64) -> (r: Self)
        ensures
            r@ == (ParticleModel { step_size: s, ..self@ }),
    {
        Particle { step_size: s, ..self }
    }

    /// The same particle with the given damping factor.
    pub fn set_damping(self, d: Vec2) -> (r: Self)
        ensures
            r@ == (ParticleModel { damping: d, ..self@ }),
    {
        Particle { damping: d, ..self }
    }

    /// One step under the given direction bias and force multiplier;
    /// the new state is exactly `spec_step` of the old.
    fn step(&mut self, direction: Vec2, force: Vec2)
        ensures
            final (self)@ == spec_step(old(self)@, direction, force),
    {
        if self.stopped {
            return ;
        }
        let sx = match fx_mul(self.position.x, self.frequency) {
            Option::Some(v) => v,
            Option::None => {
                self.stopped = true;
                return ;
            },
        };
        let sy = match fx_mul(self.position.y, self.frequency) {
            Option::Some(v) => v,
            Option::None => {
                self.stopped = true;
                return ;
            },
        };
        let noise_v = self.noise.sample(sx, sy);
        let angle = match fx_mul(noise_v, self.amplitude) {
            Option::Some(v) => v,
            Option::None => {
                self.stopped = true;
                return ;
            },
        };
        let cos_v = cos_fx(angle);
        let sin_v = sin_fx(angle);
        let nfx = match fx_mul(cos_v, self.step_size) {
            Option::Some(v) => v,
            Option::None => {
                self.stopped = true;
                return ;
            },
        };
        let nfy = match fx_mul(sin_v, self.step_size) {
            Option::Some(v) => v,
            Option::None => {
                self.stopped = true;
                return ;
            },
        };
        let bx = match add_win(nfx, direction.x) {
            Option::Some(v) => v,
            Option::None => {
                self.stopped = true;
                return ;
            },
        };
        let by = match add_win(nfy, direction.y) {
            Option::Some(v) => v,
            Option::None => {
                self.stopped = true;
                return ;
            },
        };
        let afx = match fx_mul(bx, force.x) {
            Option::Some(v) => v,
            Option::None => {
                self.stopped = true;
                return ;
            },
        };
        let afy = match fx_mul(by, force.y) {
            Option::Some(v) => v,
            Option::None => {
                self.stopped = true;
                return ;
            },
        };
        let vx = match add_win(self.velocity.x, afx) {
            Option::Some(v) => v,
            Option::None => {
                self.stopped = true;
                return ;
            },
        };
        let vy = match add_win(self.velocity.y, afy) {
            Option::Some(v) => v,
            Option::None => {
                self.stopped = true;
                return ;
            },
        };
        let cx = match add_win(self.position.x, vx) {
            Option::Some(v) => v,
            Option::None => {
                self.stopped = true;
                return ;
            },
        };
        let cy = match add_win(self.position.y, vy) {
            Option::Some(v) => v,
            Option::None => {
                self.stopped = true;
                return ;
            },
        };
        let dvx = match fx_mul(vx, self.damping.x) {
            Option::Some(v) => v,
            Option::None => {
                self.stopped = true;
                return ;
            },
        };
        let dvy = match fx_mul(vy, self.damping.y) {
            Option::Some(v) => v,
            Option::None => {
                self.stopped = true;
                return ;
            },
        };
        let cand = Vec2 { x: cx, y: cy };
        self.velocity = Vec2 { x: dvx, y: dvy };
        let inside = match self.bounds {
            Option::None => true,
            Option::Some(b) => b.contains(cand),
        };
        if inside {
            self.position = cand;
            self.trail.push(cand);
        } else {
            self.stopped = true;
        }
    }

    /// Advances one step with no bias and a unit force multiplier: pure
    /// noise wandering.
    pub fn move_particle(&mut self)
        ensures
            final (self)@ == spec_step(
                old(self)@,
                (Vec2 { x: 0, y: 0 }),
                (Vec2 { x: FX_ONE, y: FX_ONE }),
            ),
    {
        self.step(Vec2 { x: 0, y: 0 }, Vec2 { x: FX_ONE, y: FX_ONE });
    }

    /// Advances one step: `direction` is added to the noise force and the
    /// sum is scaled per axis by `force` before it joins the velocity.
    pub fn move_particle_with_direction(&mut self, direction: Vec2, force: Vec2)
        ensures
            final (self)@ == spec_step(old(self)@, direction, force),
    {
        self.step(direction, force)
    }

    /// The recorded trail, in temporal order; empty before the first
    /// completed step.
    pub fn line(&self) -> (r: &Vec<Vec2>)
        ensures
            r@ == self@.trail,
    {
        &self.trail
    }

    /// The current position.
    pub fn position(&self) -> (r: Vec2)
        ensures
            r == self@.position,
    {
        self.position
    }

    /// The current velocity.
    pub fn velocity(&self) -> (r: Vec2)
        ensures
            r == self@.velocity,
    {
        self.velocity
    }

    /// Whether the particle has stopped.
    pub fn is_stopped(&self) -> (r: bool)
        ensures
            r == self@.stopped,
    {
        self.stopped
    }

    /// The recorded point extremal along `axis` in the sense of `dir`,
    /// the first such point when several tie; the origin when the trail
    /// is empty (a sentinel, not a sample).
    pub fn extent(&self, axis: Axis, dir: Direction) -> (r: Vec2)
        ensures
            r == spec_extent(self@.trail, axis, dir),
            self@.trail.len() == 0 ==> r == (Vec2 { x: 0, y: 0 }),
    {
        let n = self.trail.len();
        if n == 0 {
            return Vec2 { x: 0, y: 0 };
        }
        let mut best: Vec2 = self.trail[0];
        let mut i: usize = 1;
        proof {
            assert(self.trail@.take(1) =~= seq![self.trail@[0]]);
        }
        while i < n
            invariant
                1 <= i <= n,
                n == self.trail@.len(),
                best == spec_extent(self.trail@.take(i as int), axis, dir),
            decreases n - i,
        {
            let cand = self.trail[i];
            let cv: i64 = match axis {
                Axis::X => cand.x,
                Axis::Y => cand.y,
            };
            let bv: i64 = match axis {
                Axis::X => best.x,
                Axis::Y => best.y,
            };
            let better: bool = match dir {
                Direction::Min => cv < bv,
                Direction::Max => cv > bv,
            };
            proof {
                assert(self.trail@.take(i as int + 1).drop_last() =~= self.trail@.take(i as int));
                assert(self.trail@.take(i as int + 1).last() == self.trail@[i as int]);
            }
            if better {
                best = cand;
            }
            i = i + 1;
        }
        proof {
            assert(self.trail@.take(n as int) =~= self.trail@);
        }
        best
    }

    /// The horizontal spread of the trail: greatest minus least recorded
    /// x coordinate, `0` for an empty trail.
    pub fn width(&self) -> (r: u64)
        ensures
            r as int == spec_span(self@.trail, Axis::X),
    {
        let hi = self.extent(Axis::X, Direction::Max);
        let lo = self.extent(Axis::X, Direction::Min);
        proof {
            lemma_extent_order(self@.trail, Axis::X);
        }
        ((hi.x as i128) - (lo.x as i128)) as u64
    }

    /// The vertical spread of the trail: greatest minus least recorded
    /// y coordinate, `0` for an empty trail.
    pub fn height(&self) -> (r: u64)
        ensures
            r as int == spec_span(self@.trail, Axis::Y),
    {
        let hi = self.extent(Axis::Y, Direction::Max);
        let lo = self.extent(Axis::Y, Direction::Min);
        proof {
            lemma_extent_order(self@.trail, Axis::Y);
        }
        ((hi.y as i128) - (lo.y as i128)) as u64
    }
}

/// A coordinate axis of the plane.
#[derive(Clone, Copy, PartialEq, Eq, Structural, Debug)]
pub enum Axis {
    /// The horizontal axis.
    X,
    /// The vertical axis.
    Y,
}

/// The sense of an extremum query.
#[derive(Clone, Copy, PartialEq, Eq, Structural, Debug)]
pub enum Direction {
    /// The least coordinate wins.
    Min,
    /// The greatest coordinate wins.
    Max,
}

/// The coordinate of `p` along `a`.
pub open spec fn axis_coord(p: Vec2, a: Axis) -> int {
    match a {
        Axis::X => p.x as int,
        Axis::Y => p.y as int,
    }
}

/// True when a candidate coordinate is strictly more extreme than the
/// best seen, in the sense of `d`.
pub open spec fn beats(cand: int, best: int, d: Direction) -> bool {
    match d {
        Direction::Min => cand < best,
        Direction::Max => cand > best,
    }
}

/// The point of `s` extremal along `a` in the sense of `d`: a fold over
/// the trail in temporal order where a later point replaces the best only
/// when strictly more extreme, so the first extremal point wins ties.
/// The origin stands in for an empty trail.
pub open spec fn spec_extent(s: Seq<Vec2>, a: Axis, d: Direction) -> Vec2
    decreases s.len(),
{
    if s.len() == 0 {
        Vec2 { x: 0, y: 0 }
    } else if s.len() == 1 {
        s[0]
    } else {
        let prev = spec_extent(s.drop_last(), a, d);
        if beats(axis_coord(s.last(), a), axis_coord(prev, a), d) {
            s.last()
        } else {
            prev
        }
    }
}

/// The spread of `s` along `a`: the extremal coordinates' difference,
/// `0` for an empty trail (both extents are the sentinel origin).
pub open spec fn spec_span(s: Seq<Vec2>, a: Axis) -> int {
    axis_coord(spec_extent(s, a, Direction::Max), a) - axis_coord(
        spec_extent(s, a, Direction::Min),
        a,
    )
}

/// The extremal point of a nonempty trail is one of its points, and no
/// recorded point is strictly more extreme.
pub proof fn lemma_extent_extremal(s: Seq<Vec2>, a: Axis, d: Direction)
    requires
        s.len() > 0,
    ensures
        exists|i: int| 0 <= i < s.len() && s[i] == spec_extent(s, a, d),
        forall|j: int|
            0 <= j < s.len() ==> !beats(axis_coord(s[j], a), axis_coord(spec_extent(s, a, d), a), d),
    decreases s.len(),
{
    let r = spec_extent(s, a, d);
    if s.len() == 1 {
        assert(s[0] == r);
    } else {
        let sub = s.drop_last();
        lemma_extent_extremal(sub, a, d);
        let prev = spec_extent(sub, a, d);
        if beats(axis_coord(s.last(), a), axis_coord(prev, a), d) {
            assert(s[s.len() - 1] == r);
        } else {
            let i = choose|i: int| 0 <= i < sub.len() && sub[i] == prev;
            assert(s[i] == r);
        }
        assert forall|j: int|
            0 <= j < s.len() implies !beats(axis_coord(s[j], a), axis_coord(r, a), d) by {
            if j < s.len() - 1 {
                assert(s[j] == sub[j]);
            }
        }
    }
}

/// Determinism: one step is a pure function of the state, the bias and
/// the multiplier, so particles with equal configurations — same seed,
/// start, bounds and tunables — run to equal states, and repeated
/// full-budget runs produce identical trails.
pub proof fn lemma_run_deterministic(
    p: ParticleModel,
    q: ParticleModel,
    bias: Vec2,
    mult: Vec2,
    n: nat,
)
    requires
        p == q,
    ensures
        spec_run(p, bias, mult, n) == spec_run(q, bias, mult, n),
{
}

/// One step never drops a recorded point and records at most one more:
/// the old trail stays as a prefix.  A step that records nothing stops
/// the particle, so once the trail stops growing it never grows again.
pub proof fn lemma_step_trail_monotonic(p: ParticleModel, bias: Vec2, mult: Vec2)
    ensures
        p.trail.len() <= spec_step(p, bias, mult).trail.len() <= p.trail.len() + 1,
        spec_step(p, bias, mult).trail.take(p.trail.len() as int) == p.trail,
        spec_step(p, bias, mult).trail.len() == p.trail.len() ==> spec_step(
            p,
            bias,
            mult,
        ).stopped,
{
    let q = spec_step(p, bias, mult);
    assert(q.trail.take(p.trail.len() as int) =~= p.trail);
}

/// After `n` steps the trail holds its old points, in the old order, and
/// at most `n` new ones: growth is monotone and bounded by the budget.
pub proof fn lemma_run_trail_monotonic(p: ParticleModel, bias: Vec2, mult: Vec2, n: nat)
    ensures
        p.trail.len() <= spec_run(p, bias, mult, n).trail.len() <= p.trail.len() + n,
        spec_run(p, bias, mult, n).trail.take(p.trail.len() as int) == p.trail,
    decreases n,
{
    if n == 0 {
        assert(p.trail.take(p.trail.len() as int) =~= p.trail);
    } else {
        lemma_run_trail_monotonic(p, bias, mult, (n - 1) as nat);
        let q = spec_run(p, bias, mult, (n - 1) as nat);
        let r = spec_run(p, bias, mult, n);
        lemma_step_trail_monotonic(q, bias, mult);
        assert forall|i: int| 0 <= i < p.trail.len() implies r.trail[i] == p.trail[i] by {
            assert(r.trail.take(q.trail.len() as int)[i] == q.trail[i]);
            assert(q.trail.take(p.trail.len() as int)[i] == p.trail[i]);
        }
        assert(r.trail.take(p.trail.len() as int) =~= p.trail);
    }
}

/// True when every recorded point lies inside the configured bounds;
/// trivially true without bounds.
pub open spec fn trail_within_bounds(p: ParticleModel) -> bool {
    match p.bounds {
        Option::None => true,
        Option::Some(b) => forall|i: int| 0 <= i < p.trail.len() ==> b.spec_contains(p.trail[i]),
    }
}

/// A trail with no points lies inside any bounds; in particular a fresh
/// particle satisfies the containment invariant.
pub proof fn lemma_empty_trail_within(p: ParticleModel)
    requires
        p.trail.len() == 0,
    ensures
        trail_within_bounds(p),
{
}

/// One step preserves the containment invariant: a candidate outside the
/// bounds is never recorded — the particle stops instead.
pub proof fn lemma_step_bounds(p: ParticleModel, bias: Vec2, mult: Vec2)
    requires
        trail_within_bounds(p),
    ensures
        trail_within_bounds(spec_step(p, bias, mult)),
{
    let q = spec_step(p, bias, mult);
    if p.bounds is Some && !p.stopped && step_fits(p, bias, mult) {
        let b = p.bounds->0;
        let k = step_calc(p, bias, mult);
        let cand = Vec2 { x: k.cx as i64, y: k.cy as i64 };
        if within_bounds(p.bounds, cand) {
            assert forall|i: int| 0 <= i < q.trail.len() implies b.spec_contains(q.trail[i]) by {
                if i < p.trail.len() {
                    assert(b.spec_contains(p.trail[i]));
                }
            }
        }
    }
}

/// Bounds containment: every point a run records lies inside the
/// configured bounds, whenever the points already recorded do.
pub proof fn lemma_run_bounds(p: ParticleModel, bias: Vec2, mult: Vec2, n: nat)
    requires
        trail_within_bounds(p),
    ensures
        trail_within_bounds(spec_run(p, bias, mult, n)),
    decreases n,
{
    if n > 0 {
        lemma_run_bounds(p, bias, mult, (n - 1) as nat);
        lemma_step_bounds(spec_run(p, bias, mult, (n - 1) as nat), bias, mult);
    }
}

/// A step of a stopped particle is a no-op: position, velocity, trail and
/// flag all stay as they are.
pub proof fn lemma_stopped_step_is_noop(p: ParticleModel, bias: Vec2, mult: Vec2)
    requires
        p.stopped,
    ensures
        spec_step(p, bias, mult) == p,
{
}

/// Any number of steps after stopping leaves the particle exactly as it
/// is; in particular the flag is never reset.
pub proof fn lemma_stopped_run_is_noop(p: ParticleModel, bias: Vec2, mult: Vec2, n: nat)
    requires
        p.stopped,
    ensures
        spec_run(p, bias, mult, n) == p,
    decreases n,
{
    if n > 0 {
        lemma_stopped_run_is_noop(p, bias, mult, (n - 1) as nat);
    }
}

/// Along either axis the least recorded coordinate never exceeds the
/// greatest, so the spans are non-negative.
pub proof fn lemma_extent_order(s: Seq<Vec2>, a: Axis)
    ensures
        axis_coord(spec_extent(s, a, Direction::Min), a) <= axis_coord(
            spec_extent(s, a, Direction::Max),
            a,
        ),
{
    if s.len() > 0 {
        lemma_extent_extremal(s, a, Direction::Min);
        lemma_extent_extremal(s, a, Direction::Max);
        let i = choose|i: int| 0 <= i < s.len() && s[i] == spec_extent(s, a, Direction::Min);
        assert(!beats(
            axis_coord(s[i], a),
            axis_coord(spec_extent(s, a, Direction::Max), a),
            Direction::Max,
        ));
    }
}

} // verus!
