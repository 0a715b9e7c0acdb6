//! A verified 2D ball-and-paddle simulation core.
//!
//! The library owns the arena geometry, the ball, the paddles and the score,
//! and advances them one frame at a time with integer (fixed-point)
//! arithmetic: positions are in arena units, velocities in units per second,
//! and time deltas in milliseconds.

use vstd::prelude::*;

pub mod arena;
pub mod geom;
pub mod laws;
mod rng;
pub mod sim;

verus! {

/// Half the side length of the ball's square bounding box, in arena units.
pub const BALL_RADIUS: i64 = 7;

/// Width of every paddle, in arena units.
pub const PADDLE_WIDTH: i64 = 10;

/// Half of `PADDLE_WIDTH`.
pub const PADDLE_HALF_WIDTH: i64 = 5;

/// Height of every paddle, in arena units.
pub const PADDLE_HEIGHT: i64 = 50;

/// Half of `PADDLE_HEIGHT`.
pub const PADDLE_HALF_HEIGHT: i64 = 25;

/// Horizontal speed given to the ball when it is served, in units per second.
pub const BALL_VELOCITY: i64 = 200;

/// Vertical speed of a paddle while its input is held, in units per second.
pub const PADDLE_SPEED: i64 = 200;

/// Multiplier turning the ball's offset from a struck paddle's center into
/// the ball's new vertical velocity.
pub const BOUNCE_FACTOR: i64 = 5;

/// Gap between a starting paddle's near edge and the arena boundary, in
/// arena units.
pub const PADDLE_PADDING: i64 = 10;

/// Thickness of the walls drawn around the arena, in arena units.
pub const WALL_THICKNESS: i64 = 4;

/// Number of milliseconds per time unit of a velocity.
pub const MILLIS_PER_SECOND: i64 = 1000;

} // verus!
