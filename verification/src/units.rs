//! The scales in which the simulation measures length, time and velocity, and
//! the fixed sizes and speeds of the game.

use vstd::prelude::*;

verus! {

/// One pixel, in the sub-pixel units of every coordinate and length.
pub const PIXEL: i64 = 1_000_000;

/// The velocity component that stands for 1: components are thousandths.
///
/// A body with velocity component `v` moves `v * dt * speed` units in `dt`
/// milliseconds at `speed` pixels per second, so that
/// `PIXEL == VEL_ONE * 1000`.
pub const VEL_ONE: i32 = 1_000;

/// Width of a paddle: 20 pixels.
pub const PLAYER_WIDTH: i64 = 20_000_000;

/// Height of a paddle: 100 pixels.
pub const PLAYER_HEIGHT: i64 = 100_000_000;

/// Speed of a paddle, in pixels per second.
pub const PLAYER_SPEED: i64 = 700;

/// Width and height of the ball: 10 pixels.
pub const BALL_SIZE: i64 = 10_000_000;

/// Gap between a paddle and the side of the screen it defends: 10 pixels.
pub const PLAYER_MARGIN: i64 = 10_000_000;

/// A bound on coordinates, extents and travel per frame below which a frame
/// of play is always representable: a million million pixels.
pub const REACH: i64 = 1_000_000_000_000_000_000;

/// Speed of the ball when a game is set up, in pixels per second.
pub const START_SPEED: u32 = 200;

/// What each paddle contact adds to the speed of the ball.
pub const SPEED_STEP: u32 = 50;

} // verus!
