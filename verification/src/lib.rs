//! Fixed-point particle bursts: particles that are thrown up from a point, fall
//! under gravity, bounce and roll to rest on a ground plane and fade out, driven
//! by a frame clock that is smoothed against stalls.
//!
//! Every scalar is an `i64` that counts millionths of its unit (see [`fixed`]),
//! so a simulation is reproducible bit for bit and every step is a total
//! function whose result is stated exactly.

pub mod fixed;
pub mod config;
pub mod particle;
pub mod trajectory;
pub mod frame_time;
pub mod render;
pub mod spawn;
pub mod system;
