//! A single particle and its per-tick physics.

use crate::color::Rgba;
use crate::config::{SimConfig, COORD_LIMIT, RESTITUTION_SCALE};
use crate::random::sample_below;
use rand::rngs::StdRng;
use vstd::prelude::*;

verus! {

/// A circular particle. Position and velocity are fixed-point lengths, the
/// origin is the top-left corner and +y points down.
#[derive(Clone, Copy, Debug, PartialEq, Eq, Structural)]
pub struct Particle {
    pub pos_x: i64,
    pub pos_y: i64,
    pub vel_x: i64,
    pub vel_y: i64,
    pub radius: i64,
    pub color: Rgba,
}

/// A particle as mathematical integers.
pub struct ParticleView {
    pub pos_x: int,
    pub pos_y: int,
    pub vel_x: int,
    pub vel_y: int,
    pub radius: int,
    pub color: Rgba,
}

impl View for Particle {
    type V = ParticleView;

    open spec fn view(&self) -> ParticleView {
        ParticleView {
            pos_x: self.pos_x as int,
            pos_y: self.pos_y as int,
            vel_x: self.vel_x as int,
            vel_y: self.vel_y as int,
            radius: self.radius as int,
            color: self.color,
        }
    }
}

/// `|v| <= COORD_LIMIT`.
pub open spec fn within_limit(v: int) -> bool {
    -COORD_LIMIT <= v <= COORD_LIMIT
}

/// The particle's state is small enough for a tick to be computed exactly.
pub open spec fn in_range(p: ParticleView) -> bool {
    &&& within_limit(p.pos_x)
    &&& within_limit(p.pos_y)
    &&& within_limit(p.vel_x)
    &&& within_limit(p.vel_y)
    &&& 0 < p.radius <= COORD_LIMIT
}

/// The vertical velocity after a bounce: reversed and scaled by
/// `e / RESTITUTION_SCALE`, rounded toward zero.
pub open spec fn restitute(v: int, e: int) -> int {
    if v >= 0 {
        -((v * e) / (RESTITUTION_SCALE as int))
    } else {
        ((-v) * e) / (RESTITUTION_SCALE as int)
    }
}

/// A particle whose bottom edge reaches the floor at height `y` is colliding.
pub open spec fn touches_floor(y: int, radius: int, floor_y: int) -> bool {
    y + radius >= floor_y
}

/// One tick: gravity is added to the vertical velocity, the velocity to the
/// position, and a particle that reaches the floor is put back on it and
/// bounces with energy loss `e`.
pub open spec fn step_model(p: ParticleView, gravity: int, e: int, floor_y: int) -> ParticleView {
    let vy = p.vel_y + gravity;
    let x = p.pos_x + p.vel_x;
    let y = p.pos_y + vy;
    if touches_floor(y, p.radius, floor_y) {
        ParticleView { pos_x: x, pos_y: floor_y - p.radius, vel_y: restitute(vy, e), ..p }
    } else {
        ParticleView { pos_x: x, pos_y: y, vel_y: vy, ..p }
    }
}

/// One tick of a particle under the configuration's constants.
pub open spec fn tick_particle(p: ParticleView, cfg: SimConfig) -> ParticleView {
    step_model(p, cfg.gravity as int, cfg.energy_loss as int, cfg.floor_y())
}

impl Particle {
    /// A particle at rest at the given position.
    pub fn new(pos_x: i64, pos_y: i64, radius: i64, color: Rgba) -> (p: Particle)
        ensures
            p == (Particle { pos_x, pos_y, vel_x: 0, vel_y: 0, radius, color }),
    {
        Particle { pos_x, pos_y, vel_x: 0, vel_y: 0, radius, color }
    }

    /// A color picked uniformly from the palette.
    pub fn pick_random_color(palette: &Vec<Rgba>, rng: &mut StdRng) -> (c: Rgba)
        requires
            palette@.len() > 0,
        ensures
            exists|i: int| 0 <= i < palette@.len() && c == palette@[i],
    {
        let i = sample_below(rng, palette.len() as u64) as usize;
        palette[i]
    }

    /// Whether a tick of this particle can be computed exactly.
    pub fn is_in_range(&self) -> (r: bool)
        ensures
            r == in_range(self@),
    {
        -COORD_LIMIT <= self.pos_x && self.pos_x <= COORD_LIMIT
            && -COORD_LIMIT <= self.pos_y && self.pos_y <= COORD_LIMIT
            && -COORD_LIMIT <= self.vel_x && self.vel_x <= COORD_LIMIT
            && -COORD_LIMIT <= self.vel_y && self.vel_y <= COORD_LIMIT
            && 0 < self.radius && self.radius <= COORD_LIMIT
    }

    /// The particle one tick later.
    pub fn step(&self, cfg: &SimConfig) -> (q: Particle)
        requires
            cfg.wf(),
            in_range(self@),
        ensures
            q@ == tick_particle(self@, *cfg),
    {
        let vy = self.vel_y + cfg.gravity;
        let x = self.pos_x + self.vel_x;
        let y = self.pos_y + vy;
        if y + self.radius >= cfg.viewport_height {
            let e = cfg.energy_loss;
            proof {
                let m = if vy >= 0 { vy as int } else { -(vy as int) };
                assert(0 <= m * e <= 2 * COORD_LIMIT * RESTITUTION_SCALE) by (nonlinear_arith)
                    requires
                        0 <= m <= 2 * COORD_LIMIT,
                        0 < e < RESTITUTION_SCALE,
                ;
            }
            let vel_y = if vy >= 0 {
                -((vy * e) / RESTITUTION_SCALE)
            } else {
                ((-vy) * e) / RESTITUTION_SCALE
            };
            Particle { pos_x: x, pos_y: cfg.viewport_height - self.radius, vel_y, ..*self }
        } else {
            Particle { pos_x: x, pos_y: y, vel_y: vy, ..*self }
        }
    }
}

/// Energy dissipation: a particle that moves down into the floor leaves it
/// moving up (or at rest), with its speed at the moment of collision scaled by
/// the restitution coefficient and rounded toward zero; the result is exact
/// when the product is a whole fixed-point length.
pub proof fn lemma_bounce_dissipates(p: ParticleView, cfg: SimConfig)
    requires
        cfg.wf(),
        p.vel_y + cfg.gravity > 0,
        touches_floor(p.pos_y + p.vel_y + cfg.gravity, p.radius, cfg.floor_y()),
    ensures
        ({
            let v = p.vel_y + cfg.gravity;
            let e = cfg.energy_loss as int;
            let q = tick_particle(p, cfg);
            &&& q.vel_y <= 0
            &&& (-q.vel_y) * RESTITUTION_SCALE <= v * e < (-q.vel_y + 1) * RESTITUTION_SCALE
            &&& (v * e) % (RESTITUTION_SCALE as int) == 0 ==> (-q.vel_y) * RESTITUTION_SCALE == v * e
            &&& v * e >= RESTITUTION_SCALE ==> q.vel_y < 0
            &&& -q.vel_y < v
        }),
{
    let v = p.vel_y + cfg.gravity;
    let e = cfg.energy_loss as int;
    let m = (v * e) / (RESTITUTION_SCALE as int);
    assert(v * e > 0) by (nonlinear_arith)
        requires
            v > 0,
            e > 0,
    ;
    assert(m * RESTITUTION_SCALE <= v * e < (m + 1) * RESTITUTION_SCALE && m >= 0) by (nonlinear_arith)
        requires
            m == (v * e) / (RESTITUTION_SCALE as int),
            v * e > 0,
    ;
    assert(v * e < v * RESTITUTION_SCALE) by (nonlinear_arith)
        requires
            v > 0,
            e < RESTITUTION_SCALE,
    ;
    assert((v * e) % (RESTITUTION_SCALE as int) == 0 ==> m * RESTITUTION_SCALE == v * e) by (nonlinear_arith)
        requires
            m == (v * e) / (RESTITUTION_SCALE as int),
    ;
}

} // verus!
