//! The frame renderer: the draw list of one frame, computed from the store
//! without changing it.

use crate::color::{Rgba, GLOW_ALPHA};
use crate::particle::{Particle, ParticleView};
use crate::store::ParticleStore;
use vstd::prelude::*;

verus! {

/// How finely circles are approximated by polygons, as a fixed-point length
/// (a tenth of a world unit).
pub const TESSELLATION_TOLERANCE: i64 = 100;

/// One draw primitive of a frame.
#[derive(Clone, Copy, Debug, PartialEq, Eq, Structural)]
pub enum DrawCommand {
    /// Fill the whole surface with a color.
    Clear { color: Rgba },
    /// A filled circle.
    Circle { center_x: i64, center_y: i64, radius: i64, tolerance: i64, color: Rgba },
}

/// A glow is 1.2 times the particle's radius, rounded down.
pub open spec fn glow_radius(r: int) -> int {
    r * 6 / 5
}

/// The particle's body: its own radius and full color.
pub open spec fn body_circle(p: ParticleView) -> DrawCommand {
    DrawCommand::Circle {
        center_x: p.pos_x as i64,
        center_y: p.pos_y as i64,
        radius: p.radius as i64,
        tolerance: TESSELLATION_TOLERANCE,
        color: p.color,
    }
}

/// The particle's glow: a larger circle of its color at reduced alpha.
pub open spec fn glow_circle(p: ParticleView) -> DrawCommand {
    DrawCommand::Circle {
        center_x: p.pos_x as i64,
        center_y: p.pos_y as i64,
        radius: glow_radius(p.radius) as i64,
        tolerance: TESSELLATION_TOLERANCE,
        color: p.color.with_alpha_spec(GLOW_ALPHA),
    }
}

/// The frame's background.
pub open spec fn clear_black() -> DrawCommand {
    DrawCommand::Clear { color: Rgba { r: 0, g: 0, b: 0, a: 1000 } }
}

impl Particle {
    /// The circle of the particle's body.
    pub fn body(&self) -> (c: DrawCommand)
        ensures
            c == body_circle(self@),
    {
        DrawCommand::Circle {
            center_x: self.pos_x,
            center_y: self.pos_y,
            radius: self.radius,
            tolerance: TESSELLATION_TOLERANCE,
            color: self.color,
        }
    }

    /// The circle of the particle's glow.
    pub fn glow(&self) -> (c: DrawCommand)
        requires
            0 < self.radius <= crate::config::COORD_LIMIT,
        ensures
            c == glow_circle(self@),
    {
        DrawCommand::Circle {
            center_x: self.pos_x,
            center_y: self.pos_y,
            radius: self.radius * 6 / 5,
            tolerance: TESSELLATION_TOLERANCE,
            color: self.color.with_alpha(GLOW_ALPHA),
        }
    }
}

impl ParticleStore {
    /// The draw list of one frame: a clear to black, then for each particle in
    /// store order its glow (when enabled) followed by its body.
    pub fn draw_commands(&self, glow: bool) -> (r: Vec<DrawCommand>)
        requires
            self.wf(),
        ensures
            r@[0] == clear_black(),
            glow ==> r@.len() == 1 + 2 * self@.len(),
            glow ==> forall|i: int|
                0 <= i < self@.len() ==> r@[1 + 2 * i] == glow_circle(#[trigger] self@[i]) && r@[2
                    + 2 * i] == body_circle(self@[i]),
            !glow ==> r@.len() == 1 + self@.len(),
            !glow ==> forall|i: int|
                0 <= i < self@.len() ==> r@[1 + i] == body_circle(#[trigger] self@[i]),
    {
        let mut r: Vec<DrawCommand> = Vec::new();
        r.push(DrawCommand::Clear { color: Rgba::black() });
        let n = self.len();
        let mut i: usize = 0;
        while i < n
            invariant
                n == self@.len(),
                i <= n,
                self.wf(),
                r@[0] == clear_black(),
                glow ==> r@.len() == 1 + 2 * i,
                glow ==> forall|j: int|
                    0 <= j < i ==> r@[1 + 2 * j] == glow_circle(#[trigger] self@[j]) && r@[2 + 2
                        * j] == body_circle(self@[j]),
                !glow ==> r@.len() == 1 + i,
                !glow ==> forall|j: int| 0 <= j < i ==> r@[1 + j] == body_circle(#[trigger] self@[j]),
            decreases n - i,
        {
            let p = self.get(i);
            if glow {
                r.push(p.glow());
            }
            r.push(p.body());
            i += 1;
        }
        r
    }
}

} // verus!
