//! The simulation's fixed configuration.
//!
//! Lengths are fixed-point integers in thousandths of a world unit (`UNIT`
//! stands for one world unit); the restitution coefficient is per mille.

use crate::color::{neon_colors, neon_palette, Rgba};
use vstd::prelude::*;

verus! {

/// One world unit in fixed-point length.
pub const UNIT: i64 = 1000;

/// The scale of the restitution coefficient: `energy_loss / RESTITUTION_SCALE`.
pub const RESTITUTION_SCALE: i64 = 1000;

/// The largest magnitude a coordinate, a velocity, the radius, the gravity or
/// a viewport side may have for a tick to be computed without overflow.
pub const COORD_LIMIT: i64 = 1_000_000_000_000_000;

/// The options of one simulation, fixed at start.
pub struct SimConfig {
    /// How many particles the store holds.
    pub particle_count: usize,
    /// The radius of every particle.
    pub radius: i64,
    /// Added to each particle's vertical velocity every tick (+y is down).
    pub gravity: i64,
    /// The restitution coefficient, per mille, strictly between 0 and 1.
    pub energy_loss: i64,
    pub viewport_width: i64,
    /// Also the height of the floor.
    pub viewport_height: i64,
    /// The colors particles are drawn from.
    pub palette: Vec<Rgba>,
    /// Whether each particle is drawn with a glow under its body.
    pub glow_enabled: bool,
}

impl SimConfig {
    pub open spec fn wf(&self) -> bool {
        &&& 0 < self.radius <= COORD_LIMIT
        &&& 0 <= self.gravity <= COORD_LIMIT
        &&& 0 < self.energy_loss < RESTITUTION_SCALE
        &&& 0 < self.viewport_width <= COORD_LIMIT
        &&& 0 < self.viewport_height <= COORD_LIMIT
        &&& self.palette@.len() > 0
        &&& forall|i: int| 0 <= i < self.palette@.len() ==> (#[trigger] self.palette@[i]).wf()
    }

    /// The floor's height: the bottom edge of the viewport.
    pub open spec fn floor_y(&self) -> int {
        self.viewport_height as int
    }

    /// 500 particles of radius 5 in a 1024 by 768 viewport, gravity 0.9 per
    /// tick, restitution 0.8, the neon palette, with glow.
    pub fn neon() -> (c: SimConfig)
        ensures
            c.wf(),
            c.particle_count == 500,
            c.radius == 5 * UNIT,
            c.gravity == 900,
            c.energy_loss == 800,
            c.viewport_width == 1024 * UNIT,
            c.viewport_height == 768 * UNIT,
            c.palette@ == neon_colors(),
            c.glow_enabled,
    {
        let c = SimConfig {
            particle_count: 500,
            radius: 5 * UNIT,
            gravity: 900,
            energy_loss: 800,
            viewport_width: 1024 * UNIT,
            viewport_height: 768 * UNIT,
            palette: neon_palette(),
            glow_enabled: true,
        };
        assert(forall|i: int| 0 <= i < c.palette@.len() ==> (#[trigger] c.palette@[i]).wf());
        c
    }
}

} // verus!
