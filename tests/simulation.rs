use particles::color::{neon_palette, Rgba};
use particles::config::{SimConfig, COORD_LIMIT, UNIT};
use particles::particle::Particle;
use particles::render::{DrawCommand, TESSELLATION_TOLERANCE};
use particles::store::ParticleStore;
use rand::rngs::StdRng;
use rand::SeedableRng;

fn green() -> Rgba {
    Rgba { r: 224, g: 1000, b: 78, a: 1000 }
}

fn snapshot(s: &ParticleStore) -> Vec<Particle> {
    let mut v = Vec::new();
    for i in 0..s.len() {
        v.push(s.get(i));
    }
    v
}

#[test]
fn single_free_fall_tick() {
    let cfg = SimConfig::neon();
    let p = Particle::new(100 * UNIT, 100 * UNIT, 5 * UNIT, green());
    let q = p.step(&cfg);
    assert_eq!((q.vel_x, q.vel_y), (0, 900));
    assert_eq!((q.pos_x, q.pos_y), (100_000, 100_900));
    assert_eq!(q.radius, p.radius);
    assert_eq!(q.color, p.color);
}

#[test]
fn collision_tick() {
    let cfg = SimConfig::neon();
    let p = Particle { pos_x: 100_000, pos_y: 760_000, vel_x: 0, vel_y: 10_000, radius: 5_000, color: green() };
    let q = p.step(&cfg);
    assert_eq!(q.pos_x, 100_000);
    assert_eq!(q.pos_y, 763_000);
    assert_eq!(q.vel_y, -8_720);
    assert_eq!(q.vel_x, 0);
}

#[test]
fn bounce_of_upward_particle_below_floor_sends_it_down() {
    let cfg = SimConfig::neon();
    let p = Particle { pos_x: 0, pos_y: 780_000, vel_x: 3, vel_y: -5_900, radius: 5_000, color: green() };
    let q = p.step(&cfg);
    // velocity -5000 after gravity, reversed and scaled by 0.8
    assert_eq!(q.vel_y, 4_000);
    assert_eq!(q.pos_y, 763_000);
    assert_eq!(q.pos_x, 3);
}

#[test]
fn energy_dissipation_rounds_toward_zero() {
    let cfg = SimConfig::neon();
    // speed at collision 1, times 0.8, rounds to 0
    let p = Particle { pos_x: 0, pos_y: 763_000, vel_x: 0, vel_y: -899, radius: 5_000, color: green() };
    assert_eq!(p.step(&cfg).vel_y, 0);
    // speed at collision 1001: 800.8 rounds to 800
    let p = Particle { pos_x: 0, pos_y: 763_000, vel_x: 0, vel_y: 101, radius: 5_000, color: green() };
    assert_eq!(p.step(&cfg).vel_y, -800);
}

#[test]
fn exact_floor_contact_counts_as_collision() {
    let cfg = SimConfig::neon();
    let p = Particle { pos_x: 0, pos_y: 762_100, vel_x: 0, vel_y: 0, radius: 5_000, color: green() };
    let q = p.step(&cfg);
    assert_eq!(q.pos_y, 763_000);
    assert_eq!(q.vel_y, -720);
}

#[test]
fn step_is_deterministic() {
    let cfg = SimConfig::neon();
    let p = Particle { pos_x: 12_345, pos_y: 500_000, vel_x: -7, vel_y: 4_321, radius: 5_000, color: green() };
    assert_eq!(p.step(&cfg), p.step(&cfg));
    assert_eq!(p.step(&cfg).step(&cfg), p.step(&cfg).step(&cfg));
}

#[test]
fn initialization_bounds() {
    let cfg = SimConfig::neon();
    let mut rng = StdRng::seed_from_u64(1);
    let s = ParticleStore::initialize(&cfg, &mut rng);
    assert_eq!(s.len(), 500);
    let palette = neon_palette();
    for p in snapshot(&s) {
        assert!(0 <= p.pos_x && p.pos_x < 1024 * UNIT);
        assert!(0 <= p.pos_y && p.pos_y < 768 * UNIT);
        assert_eq!((p.vel_x, p.vel_y), (0, 0));
        assert_eq!(p.radius, 5 * UNIT);
        assert!(palette.contains(&p.color));
    }
    assert!(s.can_tick());
}

#[test]
fn initialization_draws_varied_positions() {
    let cfg = SimConfig::neon();
    let mut rng = StdRng::seed_from_u64(2);
    let s = ParticleStore::initialize(&cfg, &mut rng);
    let ps = snapshot(&s);
    let first = ps[0];
    assert!(ps.iter().any(|p| p.pos_x != first.pos_x));
    assert!(ps.iter().any(|p| p.pos_y != first.pos_y));
    assert!(ps.iter().any(|p| p.pos_x != 0 && p.pos_y != 0));
}

#[test]
fn initialization_is_reproducible_from_a_seed() {
    let cfg = SimConfig::neon();
    let a = ParticleStore::initialize(&cfg, &mut StdRng::seed_from_u64(9));
    let b = ParticleStore::initialize(&cfg, &mut StdRng::seed_from_u64(9));
    assert_eq!(snapshot(&a), snapshot(&b));
}

#[test]
fn initialization_of_no_particles() {
    let mut cfg = SimConfig::neon();
    cfg.particle_count = 0;
    let mut s = ParticleStore::initialize(&cfg, &mut StdRng::seed_from_u64(3));
    assert_eq!(s.len(), 0);
    s.on_tick(&cfg);
    assert_eq!(s.len(), 0);
    assert_eq!(s.draw_commands(true), vec![DrawCommand::Clear { color: Rgba::black() }]);
}

#[test]
fn color_sampling_is_roughly_uniform() {
    let cfg = SimConfig::neon();
    let palette = neon_palette();
    let mut counts = vec![0usize; palette.len()];
    let mut total = 0usize;
    for seed in 0..40u64 {
        let s = ParticleStore::initialize(&cfg, &mut StdRng::seed_from_u64(seed));
        for p in snapshot(&s) {
            let k = palette.iter().position(|c| *c == p.color).unwrap();
            counts[k] += 1;
            total += 1;
        }
    }
    let expected = total as f64 / palette.len() as f64;
    for c in counts {
        assert!((c as f64 - expected).abs() < 0.1 * expected, "count {} expected {}", c, expected);
    }
}

#[test]
fn pick_random_color_stays_in_palette() {
    let palette = vec![green(), Rgba::black()];
    let mut rng = StdRng::seed_from_u64(5);
    let mut seen_black = false;
    let mut seen_green = false;
    for _ in 0..100 {
        let c = Particle::pick_random_color(&palette, &mut rng);
        assert!(palette.contains(&c));
        seen_black |= c == Rgba::black();
        seen_green |= c == green();
    }
    assert!(seen_black && seen_green);
}

#[test]
fn many_ticks_keep_population_colors_radii_and_floor() {
    let cfg = SimConfig::neon();
    let mut s = ParticleStore::initialize(&cfg, &mut StdRng::seed_from_u64(4));
    let start = snapshot(&s);
    for _ in 0..300 {
        assert!(s.can_tick());
        s.on_tick(&cfg);
        let now = snapshot(&s);
        assert_eq!(now.len(), start.len());
        for (p, q) in start.iter().zip(now.iter()) {
            assert_eq!(p.color, q.color);
            assert_eq!(p.radius, q.radius);
            assert!(q.pos_y + q.radius <= cfg.viewport_height);
        }
    }
}

#[test]
fn on_tick_steps_every_particle() {
    let cfg = SimConfig::neon();
    let mut s = ParticleStore::initialize(&cfg, &mut StdRng::seed_from_u64(6));
    for _ in 0..50 {
        let before = snapshot(&s);
        s.on_tick(&cfg);
        let after = snapshot(&s);
        for (p, q) in before.iter().zip(after.iter()) {
            assert_eq!(p.step(&cfg), *q);
        }
    }
}

#[test]
fn particles_settle_on_the_floor() {
    let cfg = SimConfig::neon();
    let mut p = Particle::new(0, 0, 5 * UNIT, green());
    for _ in 0..2000 {
        p = p.step(&cfg);
    }
    assert_eq!(p.pos_y, 763_000);
    assert!(p.vel_y.abs() <= cfg.gravity);
}

#[test]
fn no_horizontal_wall() {
    let cfg = SimConfig::neon();
    let mut p = Particle { pos_x: 1_020_000, pos_y: 0, vel_x: 10_000, vel_y: 0, radius: 5_000, color: green() };
    for _ in 0..10 {
        p = p.step(&cfg);
    }
    assert_eq!(p.pos_x, 1_120_000);
    assert_eq!(p.vel_x, 10_000);
}

#[test]
fn range_checks() {
    let p = Particle::new(COORD_LIMIT, -COORD_LIMIT, 5, green());
    assert!(p.is_in_range());
    let q = Particle::new(COORD_LIMIT + 1, 0, 5, green());
    assert!(!q.is_in_range());
    let r = Particle::new(0, 0, 0, green());
    assert!(!r.is_in_range());
}

#[test]
fn draw_commands_with_glow() {
    let cfg = SimConfig::neon();
    let s = ParticleStore::initialize(&cfg, &mut StdRng::seed_from_u64(8));
    let cmds = s.draw_commands(true);
    assert_eq!(cmds.len(), 1 + 2 * 500);
    assert_eq!(cmds[0], DrawCommand::Clear { color: Rgba { r: 0, g: 0, b: 0, a: 1000 } });
    for i in 0..s.len() {
        let p = s.get(i);
        let mut faded = p.color;
        faded.a = 400;
        assert_eq!(
            cmds[1 + 2 * i],
            DrawCommand::Circle { center_x: p.pos_x, center_y: p.pos_y, radius: 6_000, tolerance: 100, color: faded }
        );
        assert_eq!(
            cmds[2 + 2 * i],
            DrawCommand::Circle { center_x: p.pos_x, center_y: p.pos_y, radius: 5_000, tolerance: 100, color: p.color }
        );
    }
}

#[test]
fn draw_commands_without_glow() {
    let cfg = SimConfig::neon();
    let s = ParticleStore::initialize(&cfg, &mut StdRng::seed_from_u64(10));
    let cmds = s.draw_commands(false);
    assert_eq!(cmds.len(), 501);
    for i in 0..s.len() {
        assert_eq!(cmds[1 + i], s.get(i).body());
    }
}

#[test]
fn glow_radius_rounds_down() {
    let p = Particle::new(1, 2, 7, green());
    match p.glow() {
        DrawCommand::Circle { center_x, center_y, radius, tolerance, color } => {
            assert_eq!((center_x, center_y, radius, tolerance), (1, 2, 8, TESSELLATION_TOLERANCE));
            assert_eq!(color, Rgba { r: 224, g: 1000, b: 78, a: 400 });
        }
        other => panic!("unexpected {:?}", other),
    }
}

#[test]
fn neon_configuration() {
    let cfg = SimConfig::neon();
    assert_eq!(cfg.particle_count, 500);
    assert_eq!(cfg.radius, 5_000);
    assert_eq!(cfg.gravity, 900);
    assert_eq!(cfg.energy_loss, 800);
    assert_eq!((cfg.viewport_width, cfg.viewport_height), (1_024_000, 768_000));
    assert_eq!(cfg.palette.len(), 7);
    assert_eq!(cfg.palette[6], Rgba { r: 502, g: 0, b: 502, a: 1000 });
    assert!(cfg.glow_enabled);
}
