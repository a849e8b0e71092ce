//! A two-paddle Pong simulation on integer coordinates.
//!
//! Lengths and positions are whole sub-pixel units, time steps are whole
//! milliseconds and velocity components are thousandths, so a frame of the
//! game is exact integer arithmetic. Every type has a mathematical model (its
//! view, written `@`) over unbounded integers; the contracts of the executable
//! functions are stated over those models.

pub mod units;
pub mod geometry;
pub mod heading;
pub mod collision;
pub mod input;
pub mod paddle;
pub mod ball;
pub mod game;

mod random;
