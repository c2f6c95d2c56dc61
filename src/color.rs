//! RGBA colors with per-mille channels, and the neon palette.

use vstd::prelude::*;

verus! {

/// The value of a fully saturated channel: channels are per mille.
pub const CHANNEL_MAX: u16 = 1000;

/// The alpha of a particle's glow, per mille.
pub const GLOW_ALPHA: u16 = 400;

/// An RGBA color; each channel lies in `0..=CHANNEL_MAX`.
#[derive(Clone, Copy, Debug, PartialEq, Eq, Structural)]
pub struct Rgba {
    pub r: u16,
    pub g: u16,
    pub b: u16,
    pub a: u16,
}

impl Rgba {
    pub open spec fn wf(self) -> bool {
        &&& self.r <= CHANNEL_MAX
        &&& self.g <= CHANNEL_MAX
        &&& self.b <= CHANNEL_MAX
        &&& self.a <= CHANNEL_MAX
    }

    pub open spec fn with_alpha_spec(self, a: u16) -> Rgba {
        Rgba { a, ..self }
    }

    /// The opaque color of the given channels.
    pub fn opaque(r: u16, g: u16, b: u16) -> (c: Rgba)
        ensures
            c == (Rgba { r, g, b, a: CHANNEL_MAX }),
    {
        Rgba { r, g, b, a: CHANNEL_MAX }
    }

    /// The same color with its alpha replaced.
    pub fn with_alpha(&self, a: u16) -> (c: Rgba)
        ensures
            c == self.with_alpha_spec(a),
    {
        Rgba { r: self.r, g: self.g, b: self.b, a }
    }

    /// Opaque black, the background of every frame.
    pub fn black() -> (c: Rgba)
        ensures
            c == (Rgba { r: 0, g: 0, b: 0, a: CHANNEL_MAX }),
    {
        Rgba::opaque(0, 0, 0)
    }
}

/// The seven neon colors, in palette order: green, blue, pink, yellow, cyan,
/// orange, purple.
pub open spec fn neon_colors() -> Seq<Rgba> {
    seq![
        Rgba { r: 224, g: 1000, b: 78, a: 1000 },
        Rgba { r: 98, g: 454, b: 827, a: 1000 },
        Rgba { r: 1000, g: 192, b: 333, a: 1000 },
        Rgba { r: 1000, g: 835, b: 0, a: 1000 },
        Rgba { r: 0, g: 659, b: 918, a: 1000 },
        Rgba { r: 1000, g: 341, b: 133, a: 1000 },
        Rgba { r: 502, g: 0, b: 502, a: 1000 },
    ]
}

/// The neon palette as a vector.
pub fn neon_palette() -> (p: Vec<Rgba>)
    ensures
        p@ == neon_colors(),
{
    let mut p: Vec<Rgba> = Vec::new();
    p.push(Rgba::opaque(224, 1000, 78));
    p.push(Rgba::opaque(98, 454, 827));
    p.push(Rgba::opaque(1000, 192, 333));
    p.push(Rgba::opaque(1000, 835, 0));
    p.push(Rgba::opaque(0, 659, 918));
    p.push(Rgba::opaque(1000, 341, 133));
    p.push(Rgba::opaque(502, 0, 502));
    assert(p@ =~= neon_colors());
    p
}

} // verus!
