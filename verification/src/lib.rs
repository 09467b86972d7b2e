//! Simulation core of a bunnymark-style stress-test demo.
//!
//! A growing population of sprite entities ("bunnies") is spawned with
//! randomized velocities, integrated under a constant per-tick gravity,
//! and bounced off the screen edges.  All coordinates and velocities are
//! held in fixed-point milli-pixels (one pixel is 1000 units), so every
//! step of the simulation is exact integer arithmetic.
//!
//! The host engine (rendering, asset loading, input polling, the tick
//! loop itself) stays outside this crate; it drives the [`world::World`]
//! with plain values and reads back [`metrics::Metrics`] snapshots.

use vstd::prelude::*;

pub mod entity;
pub mod metrics;
pub mod spawn;
pub mod world;

verus! {

/// Half the screen width, in milli-pixels (the screen is 640 pixels wide).
pub const SCREEN_HALF_WIDTH: i64 = 320_000;

/// Half the screen height, in milli-pixels (the screen is 480 pixels tall).
pub const SCREEN_HALF_HEIGHT: i64 = 240_000;

/// Distance from the top of the screen below which upward motion is
/// damped, in milli-pixels (40 pixels).
pub const UPPER_BOUND: i64 = 40_000;

/// Downward velocity added to every entity each tick, in milli-pixels
/// per tick (0.75 pixels per tick).
pub const GRAVITY: i64 = 750;

} // verus!
