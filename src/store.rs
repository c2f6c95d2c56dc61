//! The particle store: a fixed population, initialized at random and advanced
//! one tick at a time.

use crate::config::{SimConfig, COORD_LIMIT};
use crate::particle::{in_range, tick_particle, Particle, ParticleView};
use crate::random::sample_below;
use rand::rngs::StdRng;
use vstd::prelude::*;

verus! {

/// A freshly made particle: at rest inside the viewport, of the configured
/// radius, with a color of the palette.
pub open spec fn fresh_particle(p: ParticleView, cfg: SimConfig) -> bool {
    &&& 0 <= p.pos_x < cfg.viewport_width
    &&& 0 <= p.pos_y < cfg.viewport_height
    &&& p.vel_x == 0
    &&& p.vel_y == 0
    &&& p.radius == cfg.radius
    &&& exists|j: int| 0 <= j < cfg.palette@.len() && p.color == cfg.palette@[j]
}

/// Every particle of `s` advanced by one tick.
pub open spec fn tick_all(s: Seq<ParticleView>, cfg: SimConfig) -> Seq<ParticleView> {
    s.map_values(|p: ParticleView| tick_particle(p, cfg))
}

/// `s` advanced by `k` ticks.
pub open spec fn ticks(s: Seq<ParticleView>, cfg: SimConfig, k: nat) -> Seq<ParticleView>
    decreases k,
{
    if k == 0 {
        s
    } else {
        tick_all(ticks(s, cfg, (k - 1) as nat), cfg)
    }
}

/// The particles of one simulation, in insertion order.
pub struct ParticleStore {
    particles: Vec<Particle>,
}

impl View for ParticleStore {
    type V = Seq<ParticleView>;

    closed spec fn view(&self) -> Seq<ParticleView> {
        self.particles@.map_values(|p: Particle| p@)
    }
}

impl ParticleStore {
    /// Every radius is positive and within the coordinate limit.
    pub open spec fn wf(&self) -> bool {
        forall|i: int| 0 <= i < self@.len() ==> 0 < (#[trigger] self@[i]).radius <= COORD_LIMIT
    }

    /// Every particle is small enough for the next tick to be exact.
    pub open spec fn tickable(&self) -> bool {
        forall|i: int| 0 <= i < self@.len() ==> in_range(#[trigger] self@[i])
    }

    /// `particle_count` particles, each at rest at a uniformly drawn point of
    /// the viewport, of the configured radius, with a color drawn uniformly
    /// from the palette.
    pub fn initialize(cfg: &SimConfig, rng: &mut StdRng) -> (s: ParticleStore)
        requires
            cfg.wf(),
        ensures
            s@.len() == cfg.particle_count,
            forall|i: int| 0 <= i < s@.len() ==> fresh_particle(#[trigger] s@[i], *cfg),
            s.tickable(),
            s.wf(),
    {
        let mut particles: Vec<Particle> = Vec::new();
        let mut k: usize = 0;
        while k < cfg.particle_count
            invariant
                k <= cfg.particle_count,
                particles@.len() == k,
                cfg.wf(),
                forall|i: int| 0 <= i < k ==> fresh_particle(#[trigger] particles@[i]@, *cfg),
            decreases cfg.particle_count - k,
        {
            let x = sample_below(rng, cfg.viewport_width as u64) as i64;
            let y = sample_below(rng, cfg.viewport_height as u64) as i64;
            let color = Particle::pick_random_color(&cfg.palette, rng);
            particles.push(Particle::new(x, y, cfg.radius, color));
            k += 1;
        }
        let s = ParticleStore { particles };
        assert forall|i: int| 0 <= i < s@.len() implies fresh_particle(#[trigger] s@[i], *cfg) by {
            assert(s@[i] == s.particles@[i]@);
        }
        s
    }

    /// How many particles the store holds.
    pub fn len(&self) -> (n: usize)
        ensures
            n == self@.len(),
    {
        self.particles.len()
    }

    /// The particle at index `i`.
    pub fn get(&self, i: usize) -> (p: Particle)
        requires
            i < self@.len(),
        ensures
            p@ == self@[i as int],
    {
        self.particles[i]
    }

    /// Whether the next tick can be computed exactly.
    pub fn can_tick(&self) -> (r: bool)
        ensures
            r == self.tickable(),
    {
        let n = self.particles.len();
        let mut i: usize = 0;
        while i < n
            invariant
                n == self.particles@.len(),
                i <= n,
                forall|j: int| 0 <= j < i ==> in_range(#[trigger] self.particles@[j]@),
            decreases n - i,
        {
            if !self.particles[i].is_in_range() {
                assert(self@[i as int] == self.particles@[i as int]@);
                return false;
            }
            i += 1;
        }
        assert(forall|j: int| 0 <= j < self@.len() ==> #[trigger] self@[j] == self.particles@[j]@);
        true
    }

    /// Advances every particle by one tick, in store order.
    pub fn on_tick(&mut self, cfg: &SimConfig)
        requires
            cfg.wf(),
            old(self).tickable(),
        ensures
            final(self)@ == tick_all(old(self)@, *cfg),
            final(self)@.len() == old(self)@.len(),
            forall|i: int|
                0 <= i < final(self)@.len() ==> (#[trigger] final(self)@[i]).pos_y + final(self)@[i].radius
                    <= cfg.floor_y(),
            final(self).wf(),
    {
        let n = self.particles.len();
        let mut i: usize = 0;
        while i < n
            invariant
                n == self.particles@.len(),
                n == old(self)@.len(),
                i <= n,
                cfg.wf(),
                old(self).tickable(),
                forall|j: int| 0 <= j < i ==> #[trigger] self.particles@[j]@ == tick_particle(old(self).particles@[j]@, *cfg),
                forall|j: int| i <= j < n ==> #[trigger] self.particles@[j] == old(self).particles@[j],
            decreases n - i,
        {
            assert(old(self)@[i as int] == old(self).particles@[i as int]@);
            let q = self.particles[i].step(cfg);
            self.particles.set(i, q);
            i += 1;
        }
        assert(self@ =~= tick_all(old(self)@, *cfg));
    }
}

/// The population is fixed: after any number of ticks there are as many
/// particles as at the start.
pub proof fn lemma_population_fixed(s: Seq<ParticleView>, cfg: SimConfig, k: nat)
    ensures
        ticks(s, cfg, k).len() == s.len(),
    decreases k,
{
    if k > 0 {
        lemma_population_fixed(s, cfg, (k - 1) as nat);
    }
}

/// Colors never change: after any number of ticks each particle has the color
/// it started with.
pub proof fn lemma_color_fixed(s: Seq<ParticleView>, cfg: SimConfig, k: nat)
    ensures
        forall|i: int| 0 <= i < s.len() ==> (#[trigger] ticks(s, cfg, k)[i]).color == s[i].color,
    decreases k,
{
    lemma_population_fixed(s, cfg, k);
    if k > 0 {
        lemma_color_fixed(s, cfg, (k - 1) as nat);
        lemma_population_fixed(s, cfg, (k - 1) as nat);
        let prev = ticks(s, cfg, (k - 1) as nat);
        assert forall|i: int| 0 <= i < s.len() implies (#[trigger] ticks(s, cfg, k)[i]).color
            == s[i].color by {
            assert(ticks(s, cfg, k)[i] == tick_particle(prev[i], cfg));
        }
    }
}

/// Radii never change: after any number of ticks each particle has the radius
/// it started with.
pub proof fn lemma_radius_fixed(s: Seq<ParticleView>, cfg: SimConfig, k: nat)
    ensures
        forall|i: int| 0 <= i < s.len() ==> (#[trigger] ticks(s, cfg, k)[i]).radius == s[i].radius,
    decreases k,
{
    lemma_population_fixed(s, cfg, k);
    if k > 0 {
        lemma_radius_fixed(s, cfg, (k - 1) as nat);
        lemma_population_fixed(s, cfg, (k - 1) as nat);
        let prev = ticks(s, cfg, (k - 1) as nat);
        assert forall|i: int| 0 <= i < s.len() implies (#[trigger] ticks(s, cfg, k)[i]).radius
            == s[i].radius by {
            assert(ticks(s, cfg, k)[i] == tick_particle(prev[i], cfg));
        }
    }
}

/// The floor clamp: after every tick, each particle's bottom edge is at or
/// above the floor.
pub proof fn lemma_floor_clamp(s: Seq<ParticleView>, cfg: SimConfig, k: nat)
    requires
        k > 0,
    ensures
        forall|i: int|
            0 <= i < s.len() ==> (#[trigger] ticks(s, cfg, k)[i]).pos_y + ticks(s, cfg, k)[i].radius
                <= cfg.floor_y(),
{
    lemma_population_fixed(s, cfg, (k - 1) as nat);
    let prev = ticks(s, cfg, (k - 1) as nat);
    assert forall|i: int| 0 <= i < s.len() implies (#[trigger] ticks(s, cfg, k)[i]).pos_y + ticks(
        s,
        cfg,
        k,
    )[i].radius <= cfg.floor_y() by {
        assert(ticks(s, cfg, k)[i] == tick_particle(prev[i], cfg));
    }
}

} // verus!
