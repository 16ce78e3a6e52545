//! One particle and its motion.
//!
//! A particle moves on the ground plane and, independently, up and down above
//! it: its height is a third coordinate that gravity, the bounce and the settle
//! rule act on, while its planar velocity is only ever drained by friction when
//! the particle touches the ground.

use vstd::prelude::*;
use crate::config::Config;
use crate::fixed::{difference, negation, product, sum, sat_add, sat_mul, sat_neg, sat_sub};

verus! {

/// The height, one unit, above which gravity acts. At or under it a particle
/// counts as on the ground, so that it does not jitter there.
pub const AIRBORNE_HEIGHT: i64 = 1_000_000;

/// The vertical speed, ten units a second, that separates a bounce from rest.
pub const REST_SPEED: i64 = 10_000_000;

/// A point or a vector of the ground plane.
#[derive(Clone, Copy, Debug, PartialEq, Eq, Structural)]
pub struct Vec2 {
    pub x: i64,
    pub y: i64,
}

/// The physical state of one particle.
#[derive(Clone, Copy, Debug, PartialEq, Eq, Structural)]
pub struct Particle {
    /// Position on the ground plane.
    pub pos: Vec2,
    /// Velocity on the ground plane.
    pub vel: Vec2,
    /// Elevation above the ground plane.
    pub height: i64,
    /// Rate of change of the height; negative while falling.
    pub vertical_vel: i64,
    /// Seconds left to live.
    pub lifetime: i64,
}

/// One axis of the planar velocity after ground friction has taken `drag` from
/// its magnitude: friction that would carry the velocity past zero stops it.
pub open spec fn friction(v: i64, drag: i64) -> i64 {
    if v > 0 {
        if difference(v, drag) > 0 {
            difference(v, drag)
        } else {
            0
        }
    } else if v < 0 {
        if sum(v, drag) < 0 {
            sum(v, drag)
        } else {
            0
        }
    } else {
        0
    }
}

/// The vertical velocity with which a particle leaves the ground that it has
/// reached with `v`: reflected and damped, or zero where `v` is no faster than
/// `REST_SPEED`.
pub open spec fn rebound(v: i64, damping: i64) -> i64 {
    if v > REST_SPEED || v < -REST_SPEED {
        product(negation(v), damping)
    } else {
        0
    }
}

/// Applies ground friction to one axis of the planar velocity. Whatever the
/// drag, the velocity does not change its direction; a drag that is not
/// negative does not make it faster.
pub fn apply_axis_friction(v: i64, drag: i64) -> (r: i64)
    ensures
        r == friction(v, drag),
        v >= 0 ==> r >= 0,
        v <= 0 ==> r <= 0,
        drag >= 0 && v >= 0 ==> r <= v,
        drag >= 0 && v <= 0 ==> r >= v,
{
    if v > 0 {
        let slowed = sat_sub(v, drag);
        if slowed > 0 { slowed } else { 0 }
    } else if v < 0 {
        let slowed = sat_add(v, drag);
        if slowed < 0 { slowed } else { 0 }
    } else {
        0
    }
}

impl Particle {
    /// A particle is dormant once it lies on the ground with no velocity left.
    pub open spec fn dormant(self) -> bool {
        self.vel.x == 0 && self.vel.y == 0 && self.vertical_vel == 0 && self.height == 0
    }

    /// The particle `dt` seconds older and otherwise unchanged.
    pub open spec fn aged(self, dt: i64) -> Particle {
        Particle { lifetime: difference(self.lifetime, dt), ..self }
    }

    /// The particle after gravity or the settle rule, and after height and
    /// position have been carried forward by `dt`.
    ///
    /// Above `AIRBORNE_HEIGHT` gravity takes `gravity * dt` from the vertical
    /// velocity. At or under it, a particle slower than `REST_SPEED` is put on the
    /// ground at rest; a faster one keeps its velocity.
    pub open spec fn integrated(self, dt: i64, cfg: Config) -> Particle {
        let settles = self.height <= AIRBORNE_HEIGHT && -REST_SPEED < self.vertical_vel
            < REST_SPEED;
        let vertical_vel = if self.height > AIRBORNE_HEIGHT {
            difference(self.vertical_vel, product(cfg.gravity, dt))
        } else if settles {
            0
        } else {
            self.vertical_vel
        };
        let height = if settles { 0 } else { self.height };
        Particle {
            pos: Vec2 {
                x: sum(self.pos.x, product(self.vel.x, dt)),
                y: sum(self.pos.y, product(self.vel.y, dt)),
            },
            vel: self.vel,
            height: sum(height, product(vertical_vel, dt)),
            vertical_vel,
            lifetime: self.lifetime,
        }
    }

    /// The particle after the ground has answered: one that is above the ground
    /// is left alone; one at or under it is put on it, bounces or comes to rest,
    /// and loses `drag_force * dt` of planar speed on each axis.
    pub open spec fn landed(self, dt: i64, cfg: Config) -> Particle {
        if self.height <= 0 {
            Particle {
                pos: self.pos,
                vel: Vec2 {
                    x: friction(self.vel.x, product(cfg.drag_force, dt)),
                    y: friction(self.vel.y, product(cfg.drag_force, dt)),
                },
                height: 0,
                vertical_vel: rebound(self.vertical_vel, cfg.bounce_damping),
                lifetime: self.lifetime,
            }
        } else {
            self
        }
    }

    /// The particle after one update by `dt`.
    ///
    /// A negative `dt` changes nothing. Otherwise the particle ages by `dt`, and,
    /// unless it is dormant, moves and meets the ground.
    pub open spec fn stepped(self, dt: i64, cfg: Config) -> Particle {
        if dt < 0 {
            self
        } else if self.dormant() {
            self.aged(dt)
        } else {
            self.aged(dt).integrated(dt, cfg).landed(dt, cfg)
        }
    }

    /// Tells whether the particle still has velocity or height.
    pub fn is_moving(&self) -> (moving: bool)
        ensures
            moving == !self.dormant(),
    {
        self.vel.x != 0 || self.vel.y != 0 || self.vertical_vel != 0 || self.height != 0
    }

    /// Tells whether the particle has lifetime left.
    pub fn alive(&self) -> (alive: bool)
        ensures
            alive == (self.lifetime > 0),
    {
        self.lifetime > 0
    }

    /// Advances the particle by `dt` seconds.
    ///
    /// A negative `dt` is ignored. Otherwise the lifetime goes down by `dt`, and a
    /// particle that is not dormant falls or settles, moves, and is put back on
    /// the ground where it has reached it: there it bounces or comes to rest, and
    /// friction slows it on each axis. The height is never negative afterwards.
    pub fn update(&mut self, dt: i64, cfg: &Config)
        ensures
            *final(self) == old(self).stepped(dt, *cfg),
            dt >= 0 ==> final(self).height >= 0,
            dt >= 0 ==> final(self).lifetime == difference(old(self).lifetime, dt),
            dt >= 0 ==> final(self).lifetime <= old(self).lifetime,
            dt > 0 && old(self).lifetime - dt >= i64::MIN
                ==> final(self).lifetime < old(self).lifetime,
    {
        if dt < 0 {
            return;
        }
        self.lifetime = sat_sub(self.lifetime, dt);

        if !self.is_moving() {
            return;
        }

        if self.height > AIRBORNE_HEIGHT {
            self.vertical_vel = sat_sub(self.vertical_vel, sat_mul(cfg.gravity, dt));
        } else if -REST_SPEED < self.vertical_vel && self.vertical_vel < REST_SPEED {
            self.vertical_vel = 0;
            self.height = 0;
        }
        self.height = sat_add(self.height, sat_mul(self.vertical_vel, dt));
        self.pos.x = sat_add(self.pos.x, sat_mul(self.vel.x, dt));
        self.pos.y = sat_add(self.pos.y, sat_mul(self.vel.y, dt));

        if self.height <= 0 {
            self.height = 0;
            if self.vertical_vel > REST_SPEED || self.vertical_vel < -REST_SPEED {
                self.vertical_vel = sat_mul(sat_neg(self.vertical_vel), cfg.bounce_damping);
            } else {
                self.vertical_vel = 0;
            }

            let drag = sat_mul(cfg.drag_force, dt);
            self.vel.x = apply_axis_friction(self.vel.x, drag);
            self.vel.y = apply_axis_friction(self.vel.y, drag);
        }
    }
}

} // verus!
