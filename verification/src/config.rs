//! The constants of a simulation, gathered in one value.

use vstd::prelude::*;

verus! {

/// A colour without its opacity; each channel is a stored quantity between zero
/// and one.
#[derive(Clone, Copy, Debug, PartialEq, Eq, Structural)]
pub struct Rgb {
    pub r: i64,
    pub g: i64,
    pub b: i64,
}

/// What a simulation is tuned by. It is made once and only read afterwards.
/// Lengths are in world units, times in seconds, all as stored quantities.
#[derive(Clone, Copy, Debug, PartialEq, Eq, Structural)]
pub struct Config {
    /// Downward acceleration of a particle that is off the ground.
    pub gravity: i64,
    /// The share of its vertical speed that a particle keeps in a bounce.
    pub bounce_damping: i64,
    /// Deceleration of the planar velocity, per axis, on ground contact.
    pub drag_force: i64,
    /// Radius of a particle's body, and of its shadow at ground level.
    pub particle_radius: i64,
    /// How far below the planar position the shadow is drawn.
    pub shadow_offset: i64,
    /// The last seconds of its life over which a particle turns transparent.
    pub fade_window: i64,
    /// The height at which the shadow has shrunk to nothing.
    pub max_shadow_height: i64,
    /// The height that a particle is created at.
    pub seed_height: i64,
    /// How many particles one burst creates.
    pub burst_size: usize,
    /// Least planar speed of a new particle.
    pub speed_min: i64,
    /// Greatest planar speed of a new particle.
    pub speed_max: i64,
    /// Least vertical velocity of a new particle.
    pub lift_min: i64,
    /// Greatest vertical velocity of a new particle.
    pub lift_max: i64,
    /// Least lifetime of a new particle.
    pub lifetime_min: i64,
    /// Greatest lifetime of a new particle.
    pub lifetime_max: i64,
    /// Colour of a particle's body.
    pub body_color: Rgb,
    /// Colour of a particle's shadow.
    pub shadow_color: Rgb,
}

impl Config {
    /// The two lengths that render data are divided by are positive.
    pub open spec fn wf(self) -> bool {
        self.fade_window > 0 && self.max_shadow_height > 0
    }

    /// The standard tuning.
    pub open spec fn standard_spec() -> Config {
        Config {
            gravity: 500_000_000,
            bounce_damping: 400_000,
            drag_force: 100_000_000,
            particle_radius: 5_000_000,
            shadow_offset: 3_000_000,
            fade_window: 5_000_000,
            max_shadow_height: 300_000_000,
            seed_height: 10_000,
            burst_size: 20,
            speed_min: 20_000_000,
            speed_max: 60_000_000,
            lift_min: 100_000_000,
            lift_max: 450_000_000,
            lifetime_min: 6_000_000,
            lifetime_max: 12_000_000,
            body_color: Rgb { r: 376_000, g: 168_000, b: 1_000_000 },
            shadow_color: Rgb { r: 184_000, g: 109_000, b: 321_000 },
        }
    }

    /// The standard tuning: gravity 500, a bounce that keeps 0.4 of the speed,
    /// drag 100, radius 5, bursts of 20 particles that live 6 to 12 seconds.
    #[verifier::when_used_as_spec(standard_spec)]
    pub fn standard() -> (cfg: Config)
        ensures
            cfg == Config::standard_spec(),
            cfg.wf(),
    {
        Config {
            gravity: 500_000_000,
            bounce_damping: 400_000,
            drag_force: 100_000_000,
            particle_radius: 5_000_000,
            shadow_offset: 3_000_000,
            fade_window: 5_000_000,
            max_shadow_height: 300_000_000,
            seed_height: 10_000,
            burst_size: 20,
            speed_min: 20_000_000,
            speed_max: 60_000_000,
            lift_min: 100_000_000,
            lift_max: 450_000_000,
            lifetime_min: 6_000_000,
            lifetime_max: 12_000_000,
            body_color: Rgb { r: 376_000, g: 168_000, b: 1_000_000 },
            shadow_color: Rgb { r: 184_000, g: 109_000, b: 321_000 },
        }
    }

    /// Tells whether render data can be derived under this configuration.
    pub fn is_valid(&self) -> (ok: bool)
        ensures
            ok == self.wf(),
    {
        self.fade_window > 0 && self.max_shadow_height > 0
    }
}

} // verus!
