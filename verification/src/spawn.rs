//! Bursts: the particles that one trigger creates.
//!
//! What is random about a particle is drawn by the caller and handed in as a
//! `SpawnDraw`. A burst is made of exactly `burst_size` draws, each within the
//! configured ranges; anything else is refused and nothing is created.

use vstd::prelude::*;
use crate::config::Config;
use crate::fixed::{product, sat_mul, SCALE};
use crate::particle::{Particle, Vec2};

verus! {

/// What is drawn at random for one particle.
#[derive(Clone, Copy, Debug, PartialEq, Eq, Structural)]
pub struct SpawnDraw {
    /// The planar direction: cosine and sine of an angle.
    pub direction: Vec2,
    /// The planar speed.
    pub speed: i64,
    /// The vertical velocity that the particle is thrown up with.
    pub lift: i64,
    /// The lifetime.
    pub lifetime: i64,
}

/// Why a burst was refused.
#[derive(Clone, Copy, Debug, PartialEq, Eq, Structural)]
pub enum SpawnError {
    /// The number of draws is not the configured size of a burst.
    WrongCount,
    /// The draw at this index is the first that is out of range.
    OutOfRange(usize),
}

impl SpawnDraw {
    /// The draw is within the configured ranges, and no component of its
    /// direction is beyond one.
    pub open spec fn fits(self, cfg: Config) -> bool {
        &&& -SCALE <= self.direction.x <= SCALE
        &&& -SCALE <= self.direction.y <= SCALE
        &&& cfg.speed_min <= self.speed <= cfg.speed_max
        &&& cfg.lift_min <= self.lift <= cfg.lift_max
        &&& cfg.lifetime_min <= self.lifetime <= cfg.lifetime_max
    }

    /// The particle that the draw gives at `origin`: it starts at the seed
    /// height, and its planar velocity is the direction times the speed.
    pub open spec fn particle(self, origin: Vec2, cfg: Config) -> Particle {
        Particle {
            pos: origin,
            vel: Vec2 {
                x: product(self.direction.x, self.speed),
                y: product(self.direction.y, self.speed),
            },
            height: cfg.seed_height,
            vertical_vel: self.lift,
            lifetime: self.lifetime,
        }
    }

    /// Tells whether the draw is within the configured ranges.
    pub fn check(&self, cfg: &Config) -> (ok: bool)
        ensures
            ok == self.fits(*cfg),
    {
        -SCALE <= self.direction.x && self.direction.x <= SCALE && -SCALE <= self.direction.y
            && self.direction.y <= SCALE && cfg.speed_min <= self.speed && self.speed
            <= cfg.speed_max && cfg.lift_min <= self.lift && self.lift <= cfg.lift_max
            && cfg.lifetime_min <= self.lifetime && self.lifetime <= cfg.lifetime_max
    }

    /// Makes the particle that the draw gives at `origin`.
    pub fn spawn(&self, origin: Vec2, cfg: &Config) -> (p: Particle)
        ensures
            p == self.particle(origin, *cfg),
    {
        Particle {
            pos: origin,
            vel: Vec2 {
                x: sat_mul(self.direction.x, self.speed),
                y: sat_mul(self.direction.y, self.speed),
            },
            height: cfg.seed_height,
            vertical_vel: self.lift,
            lifetime: self.lifetime,
        }
    }
}

/// The particles that `draws` give at `origin`, in the order of the draws.
pub open spec fn burst(origin: Vec2, draws: Seq<SpawnDraw>, cfg: Config) -> Seq<Particle> {
    Seq::new(draws.len(), |i: int| draws[i].particle(origin, cfg))
}

/// The index of the first draw that is out of range is `i`.
pub open spec fn first_misfit(draws: Seq<SpawnDraw>, cfg: Config, i: int) -> bool {
    &&& 0 <= i < draws.len()
    &&& !draws[i].fits(cfg)
    &&& forall|k: int| 0 <= k < i ==> draws[k].fits(cfg)
}

/// The draws make a burst: there are `burst_size` of them, each within range.
pub open spec fn accepted(draws: Seq<SpawnDraw>, cfg: Config) -> bool {
    &&& draws.len() == cfg.burst_size
    &&& forall|i: int| 0 <= i < draws.len() ==> draws[i].fits(cfg)
}

/// `e` is the reason for which the draws make no burst: their number, or else
/// the first of them that is out of range.
pub open spec fn refusal(draws: Seq<SpawnDraw>, cfg: Config, e: SpawnError) -> bool {
    match e {
        SpawnError::WrongCount => draws.len() != cfg.burst_size,
        SpawnError::OutOfRange(i) => {
            draws.len() == cfg.burst_size && first_misfit(draws, cfg, i as int)
        },
    }
}

/// `p` is a particle as a burst at `origin` creates it: at `origin`, at the seed
/// height, thrown up and to live within the configured ranges.
pub open spec fn fresh(p: Particle, origin: Vec2, cfg: Config) -> bool {
    &&& p.pos == origin
    &&& p.height == cfg.seed_height
    &&& cfg.lift_min <= p.vertical_vel <= cfg.lift_max
    &&& cfg.lifetime_min <= p.lifetime <= cfg.lifetime_max
}

/// Creates one burst at `origin`.
///
/// The burst is created if and only if there are exactly `burst_size` draws and
/// each is within the configured ranges. It then holds one particle for each
/// draw, in the order of the draws, all at `origin` and at the seed height, with
/// a lifetime within the configured range. Otherwise the error tells why not.
pub fn spawn_burst(origin: Vec2, draws: &Vec<SpawnDraw>, cfg: &Config) -> (r: Result<
    Vec<Particle>,
    SpawnError,
>)
    ensures
        r is Ok <==> accepted(draws@, *cfg),
        r matches Ok(particles) ==> particles@ == burst(origin, draws@, *cfg),
        r matches Ok(particles) ==> particles.len() == cfg.burst_size,
        r matches Ok(particles) ==> forall|i: int|
            0 <= i < particles.len() ==> fresh(#[trigger] particles[i], origin, *cfg),
        r matches Err(e) ==> refusal(draws@, *cfg, e),
{
    if draws.len() != cfg.burst_size {
        return Err(SpawnError::WrongCount);
    }
    let mut particles: Vec<Particle> = Vec::new();
    let mut i: usize = 0;
    while i < draws.len()
        invariant
            i <= draws.len(),
            draws.len() == cfg.burst_size,
            particles.len() == i,
            forall|k: int| 0 <= k < i ==> draws[k].fits(*cfg),
            forall|k: int| 0 <= k < i ==> particles[k] == draws[k].particle(origin, *cfg),
        decreases draws.len() - i,
    {
        let draw = draws[i];
        if !draw.check(cfg) {
            return Err(SpawnError::OutOfRange(i));
        }
        particles.push(draw.spawn(origin, cfg));
        i += 1;
    }
    Ok(particles)
}

} // verus!
