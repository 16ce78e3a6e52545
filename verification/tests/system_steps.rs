use particle_burst::config::Config;
use particle_burst::particle::{Particle, Vec2};
use particle_burst::spawn::{spawn_burst, SpawnDraw, SpawnError};
use particle_burst::system::{ParticleSystem, Trigger};

const ONE: i64 = 1_000_000;

fn fixed(x: f64) -> i64 {
    (x * 1e6).round() as i64
}

/// Draws within the standard ranges, from a fixed sequence.
fn standard_draws(n: usize, seed: u64) -> Vec<SpawnDraw> {
    let mut state = seed;
    let mut next = move || {
        state = state.wrapping_mul(6364136223846793005).wrapping_add(1442695040888963407);
        ((state >> 11) as f64) / ((1u64 << 53) as f64)
    };
    let mut out = Vec::new();
    for _ in 0..n {
        let angle = next() * std::f64::consts::TAU;
        out.push(SpawnDraw {
            direction: Vec2 { x: fixed(angle.cos()), y: fixed(angle.sin()) },
            speed: fixed(20.0 + 40.0 * next()),
            lift: fixed(100.0 + 350.0 * next()),
            lifetime: fixed(6.0 + 6.0 * next()),
        });
    }
    out
}

fn trigger_at(x: i64, y: i64, seed: u64) -> Trigger {
    Trigger { origin: Vec2 { x, y }, draws: standard_draws(20, seed) }
}

#[test]
fn new_system_is_empty() {
    let system = ParticleSystem::new(Config::standard()).unwrap();
    assert_eq!(system.len(), 0);
    assert!(system.particles().is_empty());
    assert!(system.window().is_empty());
    assert_eq!(system.config(), Config::standard());
}

#[test]
fn new_system_needs_a_valid_configuration() {
    let mut cfg = Config::standard();
    cfg.fade_window = 0;
    assert!(ParticleSystem::new(cfg).is_none());
    let mut cfg = Config::standard();
    cfg.max_shadow_height = -1;
    assert!(ParticleSystem::new(cfg).is_none());
}

#[test]
fn step_without_trigger_on_empty_system() {
    let mut system = ParticleSystem::new(Config::standard()).unwrap();
    let frame = system.step(None, 16_000);
    assert_eq!(frame.dt, 16_000);
    assert_eq!(frame.count, 0);
    assert!(frame.shadows.is_empty());
    assert!(frame.bodies.is_empty());
    assert_eq!(frame.refused, None);
    assert_eq!(system.len(), 0);
    assert_eq!(system.window(), &vec![16_000]);
}

#[test]
fn trigger_creates_one_burst_that_is_updated_in_the_same_step() {
    let cfg = Config::standard();
    let mut system = ParticleSystem::new(cfg).unwrap();
    let draws = standard_draws(20, 11);
    let origin = Vec2 { x: 100 * ONE, y: 100 * ONE };
    let mut expected = spawn_burst(origin, &draws, &cfg).unwrap();
    for p in expected.iter_mut() {
        p.update(16_000, &cfg);
    }

    let frame = system.step(Some(Trigger { origin, draws }), 16_000);
    assert_eq!(frame.refused, None);
    assert_eq!(frame.dt, 16_000);
    assert_eq!(frame.count, 20);
    assert_eq!(system.len(), 20);
    assert_eq!(system.particles(), &expected);
    assert_eq!(frame.shadows.len(), 20);
    assert_eq!(frame.bodies.len(), 20);
    for i in 0..20 {
        assert_eq!(frame.shadows[i], expected[i].shadow_circle(&cfg));
        assert_eq!(frame.bodies[i], expected[i].body_circle(&cfg));
        assert!(expected[i].height > cfg.seed_height);
    }
}

#[test]
fn second_burst_joins_after_the_first() {
    let cfg = Config::standard();
    let mut system = ParticleSystem::new(cfg).unwrap();
    system.step(Some(trigger_at(0, 0, 1)), 16_000);
    let first: Vec<Particle> = system.particles().clone();
    let frame = system.step(Some(trigger_at(50 * ONE, 60 * ONE, 2)), 16_000);
    assert_eq!(frame.count, 40);
    for i in 0..20 {
        let mut p = first[i];
        p.update(16_000, &cfg);
        assert_eq!(system.particles()[i], p);
    }
    for i in 20..40 {
        assert_eq!(system.particles()[i].lifetime, standard_draws(20, 2)[i - 20].lifetime - 16_000);
    }
}

#[test]
fn refused_burst_creates_nothing_but_the_step_is_taken() {
    let cfg = Config::standard();
    let mut system = ParticleSystem::new(cfg).unwrap();
    system.step(Some(trigger_at(0, 0, 1)), 16_000);
    let before: Vec<Particle> = system.particles().clone();

    let short = Trigger { origin: Vec2 { x: 0, y: 0 }, draws: standard_draws(19, 4) };
    let frame = system.step(Some(short), 16_000);
    assert_eq!(frame.refused, Some(SpawnError::WrongCount));
    assert_eq!(frame.count, 20);
    assert_eq!(system.window().len(), 2);
    for i in 0..20 {
        let mut p = before[i];
        p.update(16_000, &cfg);
        assert_eq!(system.particles()[i], p);
    }

    let mut bad = trigger_at(0, 0, 5);
    bad.draws[7].lifetime = 13 * ONE;
    let frame = system.step(Some(bad), 16_000);
    assert_eq!(frame.refused, Some(SpawnError::OutOfRange(7)));
    assert_eq!(frame.count, 20);
    assert_eq!(system.window().len(), 3);
}

#[test]
fn stall_does_not_become_one_huge_step() {
    let cfg = Config::standard();
    let mut system = ParticleSystem::new(cfg).unwrap();
    system.step(Some(trigger_at(0, 0, 9)), 16_000);
    for _ in 0..9 {
        assert_eq!(system.step(None, 16_000).dt, 16_000);
    }
    let before: Vec<Particle> = system.particles().clone();
    let frame = system.step(None, 500_000);
    assert_eq!(frame.dt, 16_000);
    assert_eq!(system.window().len(), 11);
    assert_eq!(system.window()[10], 500_000);
    for i in 0..20 {
        let mut p = before[i];
        p.update(16_000, &cfg);
        assert_eq!(system.particles()[i], p);
    }
}

#[test]
fn negative_frame_time_freezes_the_particles() {
    let mut system = ParticleSystem::new(Config::standard()).unwrap();
    system.step(Some(trigger_at(0, 0, 9)), 16_000);
    let before: Vec<Particle> = system.particles().clone();
    let frame = system.step(None, -16_000);
    assert_eq!(frame.dt, -16_000);
    assert_eq!(frame.count, 20);
    assert_eq!(system.particles(), &before);
}

#[test]
fn expired_particles_are_shown_once_more_and_then_removed() {
    let mut cfg = Config::standard();
    cfg.burst_size = 2;
    cfg.lifetime_min = 10_000;
    let mut system = ParticleSystem::new(cfg).unwrap();
    let mut draws = standard_draws(2, 3);
    draws[0].lifetime = 16_000;
    draws[1].lifetime = 40_000;
    let frame = system.step(Some(Trigger { origin: Vec2 { x: 0, y: 0 }, draws }), 16_000);
    assert_eq!(frame.refused, None);
    assert_eq!(frame.shadows.len(), 2);
    assert_eq!(frame.bodies.len(), 2);
    assert_eq!(frame.bodies[0].color.a, 0);
    assert_eq!(frame.count, 1);
    assert_eq!(system.len(), 1);
    assert_eq!(system.particles()[0].lifetime, 24_000);

    let frame = system.step(None, 16_000);
    assert_eq!(frame.bodies.len(), 1);
    assert_eq!(frame.count, 1);
    let frame = system.step(None, 16_000);
    assert_eq!(frame.bodies.len(), 1);
    assert!(frame.bodies[0].color.a < 0);
    assert_eq!(frame.count, 0);
    let frame = system.step(None, 16_000);
    assert!(frame.bodies.is_empty());
    assert_eq!(frame.count, 0);
}

#[test]
fn twenty_seconds_after_one_burst() {
    let cfg = Config::standard();
    let mut system = ParticleSystem::new(cfg).unwrap();
    let draws = standard_draws(20, 2024);
    let lifetimes: Vec<i64> = draws.iter().map(|d| d.lifetime).collect();
    let longest = *lifetimes.iter().max().unwrap();
    assert!(longest >= 6 * ONE && longest <= 12 * ONE);

    let dt = 16_000;
    let mut trigger = Some(Trigger { origin: Vec2 { x: 100 * ONE, y: 100 * ONE }, draws });
    let mut last = 20;
    let mut emptied_at = None;
    for tick in 1..=1250i64 {
        let frame = system.step(trigger.take(), dt);
        assert_eq!(frame.dt, dt);
        assert_eq!(frame.refused, None);
        assert!(frame.count <= last);
        let living = lifetimes.iter().filter(|&&l| l - tick * dt > 0).count();
        assert_eq!(frame.count, living);
        assert_eq!(system.len(), living);
        assert_eq!(frame.shadows.len(), last);
        assert_eq!(frame.bodies.len(), last);
        for p in system.particles().iter() {
            assert!(p.alive());
            assert!(p.height >= 0);
        }
        if frame.count == 0 && emptied_at.is_none() {
            emptied_at = Some(tick);
        }
        last = frame.count;
    }
    assert_eq!(system.len(), 0);
    // the first tick at which the longest lifetime is used up
    let expected_tick = (longest + dt - 1) / dt;
    assert_eq!(emptied_at, Some(expected_tick));
    assert_eq!(system.window().len(), 11);
}
