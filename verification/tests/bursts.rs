use particle_burst::config::Config;
use particle_burst::particle::{Particle, Vec2};
use particle_burst::spawn::{spawn_burst, SpawnDraw, SpawnError};

const ONE: i64 = 1_000_000;

fn fixed(x: f64) -> i64 {
    (x * 1e6).round() as i64
}

/// Draws within the standard ranges, from a fixed sequence.
fn draws(n: usize, seed: u64) -> Vec<SpawnDraw> {
    let mut state = seed;
    let mut next = move || {
        state = state.wrapping_mul(6364136223846793005).wrapping_add(1442695040888963407);
        ((state >> 11) as f64) / ((1u64 << 53) as f64)
    };
    let mut out = Vec::new();
    for _ in 0..n {
        let angle = next() * std::f64::consts::TAU;
        out.push(SpawnDraw {
            direction: Vec2 { x: fixed(angle.cos()), y: fixed(angle.sin()) },
            speed: fixed(20.0 + 40.0 * next()),
            lift: fixed(100.0 + 350.0 * next()),
            lifetime: fixed(6.0 + 6.0 * next()),
        });
    }
    out
}

#[test]
fn burst_at_a_point_has_the_configured_size() {
    let cfg = Config::standard();
    let origin = Vec2 { x: 100 * ONE, y: 100 * ONE };
    let input = draws(20, 7);
    let particles = spawn_burst(origin, &input, &cfg).unwrap();
    assert_eq!(particles.len(), 20);
    for (p, d) in particles.iter().zip(input.iter()) {
        assert_eq!(p.pos, origin);
        assert_eq!(p.height, 10_000);
        assert!(p.lifetime >= 6 * ONE && p.lifetime <= 12 * ONE);
        assert!(p.vertical_vel >= 100 * ONE && p.vertical_vel <= 450 * ONE);
        assert_eq!(p.lifetime, d.lifetime);
        assert_eq!(p.vertical_vel, d.lift);
        assert!(p.alive());
        assert!(p.is_moving());
        let speed_squared = (p.vel.x as f64).powi(2) + (p.vel.y as f64).powi(2);
        let speed = speed_squared.sqrt() / 1e6;
        assert!(speed > 19.99 && speed < 60.01);
    }
}

#[test]
fn velocity_is_direction_times_speed() {
    let cfg = Config::standard();
    let d = SpawnDraw {
        direction: Vec2 { x: 600_000, y: -800_000 },
        speed: 50 * ONE,
        lift: 200 * ONE,
        lifetime: 9 * ONE,
    };
    assert!(d.check(&cfg));
    assert_eq!(
        d.spawn(Vec2 { x: -3, y: 4 }, &cfg),
        Particle {
            pos: Vec2 { x: -3, y: 4 },
            vel: Vec2 { x: 30 * ONE, y: -40 * ONE },
            height: 10_000,
            vertical_vel: 200 * ONE,
            lifetime: 9 * ONE,
        }
    );
}

#[test]
fn seed_height_is_taken_from_the_configuration() {
    let mut cfg = Config::standard();
    cfg.seed_height = 250_000;
    cfg.burst_size = 3;
    let particles = spawn_burst(Vec2 { x: 0, y: 0 }, &draws(3, 1), &cfg).unwrap();
    assert_eq!(particles.len(), 3);
    assert!(particles.iter().all(|p| p.height == 250_000));
}

#[test]
fn wrong_number_of_draws_is_refused() {
    let cfg = Config::standard();
    let origin = Vec2 { x: 0, y: 0 };
    assert_eq!(spawn_burst(origin, &draws(19, 3), &cfg), Err(SpawnError::WrongCount));
    assert_eq!(spawn_burst(origin, &draws(21, 3), &cfg), Err(SpawnError::WrongCount));
    assert_eq!(spawn_burst(origin, &Vec::new(), &cfg), Err(SpawnError::WrongCount));
}

#[test]
fn wrong_number_comes_before_a_draw_out_of_range() {
    let cfg = Config::standard();
    let mut input = draws(5, 3);
    input[0].lifetime = 0;
    assert_eq!(spawn_burst(Vec2 { x: 0, y: 0 }, &input, &cfg), Err(SpawnError::WrongCount));
}

#[test]
fn first_draw_out_of_range_is_named() {
    let cfg = Config::standard();
    let origin = Vec2 { x: 0, y: 0 };
    let mut input = draws(20, 5);
    input[13].lifetime = 12 * ONE + 1;
    input[17].speed = 0;
    assert_eq!(spawn_burst(origin, &input, &cfg), Err(SpawnError::OutOfRange(13)));
    input[4].lift = 99_999_999;
    assert_eq!(spawn_burst(origin, &input, &cfg), Err(SpawnError::OutOfRange(4)));
    input[0].direction.x = ONE + 1;
    assert_eq!(spawn_burst(origin, &input, &cfg), Err(SpawnError::OutOfRange(0)));
}

#[test]
fn each_bound_of_each_range_is_checked() {
    let cfg = Config::standard();
    let good = SpawnDraw {
        direction: Vec2 { x: ONE, y: -ONE },
        speed: 20 * ONE,
        lift: 450 * ONE,
        lifetime: 6 * ONE,
    };
    assert!(good.check(&cfg));
    let edits: Vec<fn(&mut SpawnDraw)> = vec![
        |d| d.direction.x = ONE + 1,
        |d| d.direction.x = -ONE - 1,
        |d| d.direction.y = ONE + 1,
        |d| d.direction.y = -ONE - 1,
        |d| d.speed = 20 * ONE - 1,
        |d| d.speed = 60 * ONE + 1,
        |d| d.lift = 100 * ONE - 1,
        |d| d.lift = 450 * ONE + 1,
        |d| d.lifetime = 6 * ONE - 1,
        |d| d.lifetime = 12 * ONE + 1,
    ];
    for edit in edits {
        let mut d = good;
        edit(&mut d);
        assert!(!d.check(&cfg));
    }
    let mut edge = good;
    edge.speed = 60 * ONE;
    edge.lift = 100 * ONE;
    edge.lifetime = 12 * ONE;
    edge.direction = Vec2 { x: -ONE, y: ONE };
    assert!(edge.check(&cfg));
}

#[test]
fn empty_burst_for_size_zero() {
    let mut cfg = Config::standard();
    cfg.burst_size = 0;
    assert_eq!(spawn_burst(Vec2 { x: 1, y: 2 }, &Vec::new(), &cfg), Ok(Vec::new()));
    assert_eq!(spawn_burst(Vec2 { x: 1, y: 2 }, &draws(1, 1), &cfg), Err(SpawnError::WrongCount));
}
