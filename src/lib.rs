//! A two-paddle ball game: the player's paddle on the left, an opponent that
//! follows the ball on the right. Positions are fixed-point, in millionths of a
//! pixel, and time is counted in microseconds.

pub mod geometry;
pub mod game;
pub mod display;
pub mod session;
pub mod laws;
