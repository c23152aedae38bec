//! Core simulation of a small 2D arcade space game: a player ship that
//! rotates and thrusts, asteroids drifting at random headings, and
//! time-limited laser projectiles, all on a toroidal (edge-wrapping) field.
//!
//! Everything is computed in fixed-point integer arithmetic:
//! - lengths and speeds carry `SCALE` sub-units per world unit;
//! - angles are measured in millidegrees, a full turn being `FULL_TURN`.
//!
//! The host that drives the loop (input polling, clock, rendering) stays
//! outside; it feeds key states and elapsed time in, and reads entity
//! positions back out.

use vstd::prelude::*;

mod angle;
mod entities;
mod motion;
mod rng;
mod trig;
mod world;

pub use angle::{
    lemma_rotate_left_then_right, lemma_rotate_right_then_left, opposite_heading, Direction,
};
pub use entities::{
    asteroid_from_draws, fire_laser, is_fresh_laser_from, spawn_asteroid, spawn_player,
    ticked_timer, AsteroidBundle, Damage, Health, Human, LaserBundle, PlayerShipBundle,
    ProjectileTimer, LASER_LIFETIME_MS,
};
pub use motion::{
    accel_spec, lemma_accel_capped, lemma_sqrt_ceil_props, lemma_thrust_never_exceeds_max,
    lemma_wrap_idempotent_inside, lemma_wrap_restores_limit, scaled_toward_zero, sqrt_ceil,
    step_delta, thrust_seq, wrap_spec, Position, Velocity,
};
pub use trig::{cos_md, cos_spec, sin_md, sin_spec};
pub use world::{
    asteroid_ticked, heading_after_input, pos_stepped, pos_wrapped, ship_after_input,
    ship_ticked, ticked_laser, velocity_after_input, KeyState, World,
};

verus! {

/// Fixed-point sub-units per world unit.
pub const SCALE: i64 = 1000;

/// Width of the visible window, in sub-units.
pub const WINDOW_X: i64 = 1280 * SCALE;

/// Height of the visible window, in sub-units.
pub const WINDOW_Y: i64 = 720 * SCALE;

/// Angle units (millidegrees) in a full turn.
pub const FULL_TURN: i64 = 360_000;

/// Angle units in a half turn.
pub const HALF_TURN: i64 = 180_000;

/// Angle units in a quarter turn.
pub const QUARTER_TURN: i64 = 90_000;

/// Heading change applied by one frame of turning input
/// (about 0.03 radians, in millidegrees).
pub const TURN_STEP: i64 = 1719;

/// The top speed any ship or asteroid may reach, in velocity sub-units.
pub const MAX_SPEED: i64 = 100 * SCALE;

/// The speed a laser is fired with along the shooter's heading, on top of
/// the shooter's own velocity, in velocity sub-units.
pub const BULLET_SPEED: i64 = 100 * SCALE;

/// A hard per-component velocity cap that every stored velocity respects;
/// it keeps all intermediate arithmetic far from overflow.
pub const VEL_LIMIT: i64 = 250 * SCALE;

/// Reciprocal of the per-tick integration scale: each tick advances a
/// position by `velocity / STEP_DIV` (a fixed-step factor of 0.05).
pub const STEP_DIV: i64 = 20;

/// The farthest one tick can move a coordinate, in sub-units
/// (`VEL_LIMIT / STEP_DIV`).
pub const MAX_STEP: i64 = 12_500;

/// Margin inside the window edge at which wrapping to the far side starts.
pub const EDGE_BUFFER: i64 = 15 * SCALE;

/// Every simulated x coordinate stays within this bound of the centre
/// (half the window width plus the edge buffer).
pub const POS_LIMIT_X: i64 = 655 * SCALE;

/// Every simulated y coordinate stays within this bound of the centre
/// (half the window height plus the edge buffer).
pub const POS_LIMIT_Y: i64 = 375 * SCALE;

} // verus!
