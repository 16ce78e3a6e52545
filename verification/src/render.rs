//! What is drawn for a particle: a body that rides at the particle's height, and
//! a shadow on the ground that shrinks as the particle rises. Both fade out over
//! the last seconds of the particle's life.

use vstd::prelude::*;
use crate::config::{Config, Rgb};
use crate::fixed::{difference, product, quotient, sum, sat_add, sat_div, sat_mul, sat_sub, SCALE};
use crate::particle::{Particle, Vec2};

verus! {

/// A colour with its opacity `a`; each channel is a stored quantity.
#[derive(Clone, Copy, Debug, PartialEq, Eq, Structural)]
pub struct Rgba {
    pub r: i64,
    pub g: i64,
    pub b: i64,
    pub a: i64,
}

/// A filled circle to draw. On the screen `y` grows downwards.
#[derive(Clone, Copy, Debug, PartialEq, Eq, Structural)]
pub struct Circle {
    pub center: Vec2,
    pub radius: i64,
    pub color: Rgba,
}

/// `ratio`, but no more than one.
pub open spec fn at_most_one(ratio: i64) -> i64 {
    if ratio < SCALE {
        ratio
    } else {
        SCALE
    }
}

/// `color` with the opacity `a`.
pub open spec fn with_opacity(color: Rgb, a: i64) -> Rgba {
    Rgba { r: color.r, g: color.g, b: color.b, a }
}

impl Particle {
    /// The opacity of body and shadow: one until `fade_window` seconds of life
    /// are left, then the share of the fade window that is left.
    pub open spec fn opacity(self, cfg: Config) -> i64 {
        at_most_one(quotient(self.lifetime, cfg.fade_window))
    }

    /// The radius of the shadow: the particle's radius on the ground, less in
    /// proportion to the height, and nothing from `max_shadow_height` up.
    pub open spec fn shadow_radius(self, cfg: Config) -> i64 {
        product(
            cfg.particle_radius,
            difference(SCALE, at_most_one(quotient(self.height, cfg.max_shadow_height))),
        )
    }

    /// The circle of the body: lifted above the planar position by the height.
    pub open spec fn body(self, cfg: Config) -> Circle {
        Circle {
            center: Vec2 { x: self.pos.x, y: difference(self.pos.y, self.height) },
            radius: cfg.particle_radius,
            color: with_opacity(cfg.body_color, self.opacity(cfg)),
        }
    }

    /// The circle of the shadow: `shadow_offset` under the planar position,
    /// whatever the height.
    pub open spec fn shadow(self, cfg: Config) -> Circle {
        Circle {
            center: Vec2 { x: self.pos.x, y: sum(self.pos.y, cfg.shadow_offset) },
            radius: self.shadow_radius(cfg),
            color: with_opacity(cfg.shadow_color, self.opacity(cfg)),
        }
    }

    /// Computes the opacity of body and shadow.
    pub fn fade(&self, cfg: &Config) -> (a: i64)
        requires
            cfg.wf(),
        ensures
            a == self.opacity(*cfg),
            a <= SCALE,
    {
        let ratio = sat_div(self.lifetime, cfg.fade_window);
        if ratio < SCALE { ratio } else { SCALE }
    }

    /// Computes the circle to draw for the body.
    pub fn body_circle(&self, cfg: &Config) -> (c: Circle)
        requires
            cfg.wf(),
        ensures
            c == self.body(*cfg),
    {
        Circle {
            center: Vec2 { x: self.pos.x, y: sat_sub(self.pos.y, self.height) },
            radius: cfg.particle_radius,
            color: Rgba {
                r: cfg.body_color.r,
                g: cfg.body_color.g,
                b: cfg.body_color.b,
                a: self.fade(cfg),
            },
        }
    }

    /// Computes the circle to draw for the shadow.
    pub fn shadow_circle(&self, cfg: &Config) -> (c: Circle)
        requires
            cfg.wf(),
        ensures
            c == self.shadow(*cfg),
    {
        let ratio = sat_div(self.height, cfg.max_shadow_height);
        let rise = if ratio < SCALE { ratio } else { SCALE };
        Circle {
            center: Vec2 { x: self.pos.x, y: sat_add(self.pos.y, cfg.shadow_offset) },
            radius: sat_mul(cfg.particle_radius, sat_sub(SCALE, rise)),
            color: Rgba {
                r: cfg.shadow_color.r,
                g: cfg.shadow_color.g,
                b: cfg.shadow_color.b,
                a: self.fade(cfg),
            },
        }
    }
}

} // verus!
