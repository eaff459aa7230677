//! Verified simulation core of a 2D arcade shooter: procedural orbital
//! flight paths for enemy craft, per-tick motion integration, and
//! projectile collision resolution with scoring and entity lifecycle.
//!
//! All quantities are fixed-point integers: positions and extents in
//! milli-pixels, velocities in milli-units, times in microseconds and
//! angles in milliradians.  The host shell owns windowing, rendering and
//! input, and drives [`game::Game`] once per frame.

pub mod combat;
pub mod components;
pub mod game;
pub mod geom;
pub mod laws;
pub mod lifecycle;
pub mod path;
pub mod rng;
pub mod tick;
pub mod trig;
