//! End-to-end behaviour of the particle engine.

use flow_field::fixed::FX_ONE;
use flow_field::noise::NoiseField;
use flow_field::particle::{Axis, Direction, Particle, Rect, Vec2};

/// Independent replay of the fixed-point product, on plain wide integers.
fn replay_fx_mul(a: i64, b: i64) -> Option<i64> {
    let p: i128 = (a as i128) * (b as i128);
    let q: i128 = p.abs() / (FX_ONE as i128);
    let v: i128 = if p < 0 { -q } else { q };
    if v.abs() > i64::MAX as i128 {
        None
    } else {
        Some(v as i64)
    }
}

/// Independent replay of windowed addition.
fn replay_add(a: i64, b: i64) -> Option<i64> {
    let s: i128 = (a as i128) + (b as i128);
    if s.abs() > i64::MAX as i128 {
        None
    } else {
        Some(s as i64)
    }
}

/// Independent replay of the corner hash.
fn replay_corner(seed: u32, gx: u64, gy: u64) -> i64 {
    let m: u128 = 1u128 << 32;
    let h1 = (((seed as u128 + (gx as u128) % m) % m) * 2_654_435_761) % m;
    let h2 = (((h1 + (gy as u128) % m) % m) * 2_654_435_761) % m;
    let h3 = (h2 * 2_246_822_519 + 374_761_393) % m;
    (h3 % 2_000_001) as i64 - FX_ONE
}

/// Independent replay of the lerp between corner scalars.
fn replay_lerp(a: i64, b: i64, t: i64) -> i64 {
    let f = FX_ONE as i128;
    ((((a as i128) + f) * (f - t as i128) + ((b as i128) + f) * (t as i128)) / f) as i64 - FX_ONE
}

/// Independent replay of the value-noise sample.
fn replay_noise(seed: u32, x: i64, y: i64) -> i64 {
    let ux = (x as i128 + (1i128 << 63)) as u64;
    let uy = (y as i128 + (1i128 << 63)) as u64;
    let f = FX_ONE as u64;
    let (cx, tx) = (ux / f, (ux % f) as i64);
    let (cy, ty) = (uy / f, (uy % f) as i64);
    let c00 = replay_corner(seed, cx, cy);
    let c10 = replay_corner(seed, cx + 1, cy);
    let c01 = replay_corner(seed, cx, cy + 1);
    let c11 = replay_corner(seed, cx + 1, cy + 1);
    replay_lerp(replay_lerp(c00, c10, tx), replay_lerp(c01, c11, tx), ty)
}

const PI_R: i64 = 3_141_593;
const TAU_R: i64 = 6_283_186;
const HALF_PI_R: i64 = 1_570_796;
const PI_SQ_R: i64 = 9_869_604;

/// Independent replay of the reduced-angle sine.
fn replay_sin_core(r: i64) -> i64 {
    let half = |x: i64| ((4 * (x as i128) * ((PI_R - x) as i128)) / (PI_SQ_R as i128)) as i64;
    if r <= PI_R {
        half(r)
    } else {
        -half(r - PI_R)
    }
}

/// Euclidean remainder by a full turn.
fn replay_reduce(a: i64) -> i64 {
    ((a as i128).rem_euclid(TAU_R as i128)) as i64
}

fn replay_sin(a: i64) -> i64 {
    replay_sin_core(replay_reduce(a))
}

fn replay_cos(a: i64) -> i64 {
    replay_sin_core((replay_reduce(a) + HALF_PI_R) % TAU_R)
}

/// A mirror of the particle state for the replay.
struct ReplayState {
    pos: (i64, i64),
    vel: (i64, i64),
    trail: Vec<(i64, i64)>,
    stopped: bool,
}

/// Independent replay of one unbiased default-tunables step without
/// bounds: frequency 0.001, amplitude 6.0, step 0.2, damping 1.
fn replay_step(seed: u32, st: &mut ReplayState) {
    if st.stopped {
        return;
    }
    let freq = 1_000;
    let ampl = 6_000_000;
    let step_size = 200_000;
    let sx = replay_fx_mul(st.pos.0, freq).unwrap();
    let sy = replay_fx_mul(st.pos.1, freq).unwrap();
    let n = replay_noise(seed, sx, sy);
    let angle = replay_fx_mul(n, ampl).unwrap();
    let c = replay_cos(angle);
    let s = replay_sin(angle);
    let nfx = replay_fx_mul(c, step_size).unwrap();
    let nfy = replay_fx_mul(s, step_size).unwrap();
    let afx = replay_fx_mul(nfx, FX_ONE).unwrap();
    let afy = replay_fx_mul(nfy, FX_ONE).unwrap();
    let vx = replay_add(st.vel.0, afx).unwrap();
    let vy = replay_add(st.vel.1, afy).unwrap();
    let cx = replay_add(st.pos.0, vx).unwrap();
    let cy = replay_add(st.pos.1, vy).unwrap();
    st.vel = (replay_fx_mul(vx, FX_ONE).unwrap(), replay_fx_mul(vy, FX_ONE).unwrap());
    st.pos = (cx, cy);
    st.trail.push((cx, cy));
}

#[test]
fn full_budget_run_matches_independent_replay() {
    // Scenario: seed 42000, start (0, 0), no bounds, default tunables
    // (frequency 0.001, amplitude 6.0, step 0.2, damping 1), 60 ticks.
    let seed = 42_000;
    let mut p = Particle::new(0, 0, None, NoiseField::new(seed));
    for _ in 0..60 {
        p.move_particle();
    }
    assert_eq!(p.line().len(), 60);
    assert!(!p.is_stopped());

    let mut st = ReplayState { pos: (0, 0), vel: (0, 0), trail: Vec::new(), stopped: false };
    for _ in 0..60 {
        replay_step(seed, &mut st);
    }
    assert_eq!(st.trail.len(), 60);
    for (got, want) in p.line().iter().zip(st.trail.iter()) {
        assert_eq!((got.x, got.y), *want);
    }
    // The final position is the accumulated sum of all velocity updates.
    assert_eq!((p.position().x, p.position().y), st.pos);
    assert_eq!(p.position(), Vec2 { x: 172_078_485, y: -327_423_067 });
    assert_eq!(p.line()[0], Vec2 { x: 61_210, y: -194_424 });
}

#[test]
fn repeated_runs_give_identical_trails() {
    let bounds = Some(Rect { min_x: -50 * FX_ONE, max_x: 50 * FX_ONE, min_y: -50 * FX_ONE, max_y: 50 * FX_ONE });
    let mut a = Particle::new(3 * FX_ONE, -2 * FX_ONE, bounds, NoiseField::new(9));
    let mut b = Particle::new(3 * FX_ONE, -2 * FX_ONE, bounds, NoiseField::new(9));
    for _ in 0..150 {
        a.move_particle_with_direction(Vec2 { x: 100, y: 200 }, Vec2 { x: FX_ONE, y: FX_ONE });
        b.move_particle_with_direction(Vec2 { x: 100, y: 200 }, Vec2 { x: FX_ONE, y: FX_ONE });
    }
    assert_eq!(a.line().len(), b.line().len());
    for (pa, pb) in a.line().iter().zip(b.line().iter()) {
        assert_eq!(pa, pb);
    }
    assert_eq!(a.position(), b.position());
    assert_eq!(a.velocity(), b.velocity());
    assert_eq!(a.is_stopped(), b.is_stopped());
}

#[test]
fn trail_growth_is_monotone_and_bounded() {
    let bounds = Some(Rect { min_x: -5 * FX_ONE, max_x: 5 * FX_ONE, min_y: -5 * FX_ONE, max_y: 5 * FX_ONE });
    let mut p = Particle::new(0, 0, bounds, NoiseField::new(9));
    let mut prev_len = p.line().len();
    assert_eq!(prev_len, 0);
    for tick in 0..400usize {
        p.move_particle();
        let len = p.line().len();
        assert!(len >= prev_len);
        assert!(len <= prev_len + 1);
        assert!(len <= tick + 1);
        prev_len = len;
    }
    // This bounded walk leaves the rectangle before the budget runs out.
    assert!(p.is_stopped());
    assert_eq!(p.line().len(), 7);
}

#[test]
fn recorded_points_stay_inside_bounds() {
    let r = Rect { min_x: -5 * FX_ONE, max_x: 5 * FX_ONE, min_y: -5 * FX_ONE, max_y: 5 * FX_ONE };
    let mut p = Particle::new(0, 0, Some(r), NoiseField::new(9));
    for _ in 0..400 {
        p.move_particle();
    }
    assert!(!p.line().is_empty());
    for q in p.line().iter() {
        assert!(r.min_x <= q.x && q.x <= r.max_x);
        assert!(r.min_y <= q.y && q.y <= r.max_y);
    }
}

#[test]
fn step_after_stop_changes_nothing() {
    let bounds = Some(Rect { min_x: -5 * FX_ONE, max_x: 5 * FX_ONE, min_y: -5 * FX_ONE, max_y: 5 * FX_ONE });
    let mut p = Particle::new(0, 0, bounds, NoiseField::new(9));
    for _ in 0..400 {
        p.move_particle();
    }
    assert!(p.is_stopped());
    let pos = p.position();
    let vel = p.velocity();
    let trail: Vec<Vec2> = p.line().clone();
    for _ in 0..50 {
        p.move_particle();
        p.move_particle_with_direction(Vec2 { x: 7 * FX_ONE, y: -3 * FX_ONE }, Vec2 { x: 2 * FX_ONE, y: FX_ONE });
    }
    assert_eq!(p.position(), pos);
    assert_eq!(p.velocity(), vel);
    assert_eq!(p.line().len(), trail.len());
    for (a, b) in p.line().iter().zip(trail.iter()) {
        assert_eq!(a, b);
    }
    assert!(p.is_stopped());
}

#[test]
fn consecutive_steps_move_by_different_deltas() {
    // The noise is sampled at the new position each tick, so the engine
    // never settles into a cached fixed delta.
    let mut p = Particle::new(0, 0, None, NoiseField::new(42_000));
    let p0 = p.position();
    p.move_particle();
    let p1 = p.position();
    p.move_particle();
    let p2 = p.position();
    assert_ne!(p1, p0);
    assert_ne!(p2, p1);
    let d1 = (p1.x - p0.x, p1.y - p0.y);
    let d2 = (p2.x - p1.x, p2.y - p1.y);
    assert_ne!(d1, d2);
}

#[test]
fn fresh_particle_reports_the_sentinel_extents() {
    let p = Particle::new(123, 456, None, NoiseField::new(5));
    assert_eq!(p.line().len(), 0);
    assert_eq!(p.extent(Axis::X, Direction::Min), Vec2 { x: 0, y: 0 });
    assert_eq!(p.extent(Axis::X, Direction::Max), Vec2 { x: 0, y: 0 });
    assert_eq!(p.extent(Axis::Y, Direction::Min), Vec2 { x: 0, y: 0 });
    assert_eq!(p.extent(Axis::Y, Direction::Max), Vec2 { x: 0, y: 0 });
    assert_eq!(p.width(), 0);
    assert_eq!(p.height(), 0);
}

#[test]
fn extents_and_spans_of_a_run() {
    let mut p = Particle::new(0, 0, None, NoiseField::new(42_000));
    for _ in 0..60 {
        p.move_particle();
    }
    let trail = p.line();
    let mut min_x = trail[0];
    let mut max_x = trail[0];
    let mut min_y = trail[0];
    let mut max_y = trail[0];
    for q in trail.iter() {
        if q.x < min_x.x {
            min_x = *q;
        }
        if q.x > max_x.x {
            max_x = *q;
        }
        if q.y < min_y.y {
            min_y = *q;
        }
        if q.y > max_y.y {
            max_y = *q;
        }
    }
    assert_eq!(p.extent(Axis::X, Direction::Min), min_x);
    assert_eq!(p.extent(Axis::X, Direction::Max), max_x);
    assert_eq!(p.extent(Axis::Y, Direction::Min), min_y);
    assert_eq!(p.extent(Axis::Y, Direction::Max), max_y);
    assert_eq!(p.width(), (max_x.x - min_x.x) as u64);
    assert_eq!(p.height(), (max_y.y - min_y.y) as u64);
}

#[test]
fn outward_bias_stops_before_the_budget() {
    // Scenario: bounds 100 units on each side, a force that pushes the
    // particle out on its first move.
    let r = Rect {
        min_x: -100 * FX_ONE,
        max_x: 100 * FX_ONE,
        min_y: -100 * FX_ONE,
        max_y: 100 * FX_ONE,
    };
    let mut p = Particle::new(0, 0, Some(r), NoiseField::new(23_456));
    let budget = 200;
    for _ in 0..budget {
        p.move_particle_with_direction(Vec2 { x: 0, y: 1_000 * FX_ONE }, Vec2 { x: FX_ONE, y: FX_ONE });
    }
    assert!(p.is_stopped());
    assert!(p.line().len() < budget);
}

#[test]
fn degenerate_bounds_stop_the_first_step() {
    // min >= max on an axis: the rectangle contains nothing, so the
    // particle stops on its very first step and records no point.
    let r = Rect { min_x: 50, max_x: 50, min_y: -10, max_y: 10 };
    let mut p = Particle::new(50, 0, Some(r), NoiseField::new(1));
    p.move_particle();
    assert!(p.is_stopped());
    assert_eq!(p.line().len(), 0);
    assert_eq!(p.position(), Vec2 { x: 50, y: 0 });
}

#[test]
fn builder_setters_configure_the_tunables() {
    let mut a = Particle::new(0, 0, None, NoiseField::new(42_000))
        .set_frequency(1_000)
        .set_amplitude(6_000_000)
        .set_step(200_000)
        .set_damping(Vec2 { x: FX_ONE, y: FX_ONE });
    let mut b = Particle::new(0, 0, None, NoiseField::new(42_000));
    for _ in 0..20 {
        a.move_particle();
        b.move_particle();
    }
    // Setting the defaults explicitly changes nothing.
    assert_eq!(a.position(), b.position());
    assert_eq!(a.line().len(), b.line().len());

    // A different step size does change the walk.
    let mut c = Particle::new(0, 0, None, NoiseField::new(42_000)).set_step(400_000);
    for _ in 0..20 {
        c.move_particle();
    }
    assert_ne!(c.position(), b.position());
}
