//! Core simulation of a two-player Pong arena: two vertically moving
//! paddles, one ball, wall and paddle reflections, and miss/re-serve logic.
//!
//! All coordinates are signed integers in "fine units": 1110 fine units per
//! world unit. The factor 1110 = 2 * 3 * 5 * 37 is chosen so that every
//! quantity the rules mention is exact: the per-tick paddle step
//! (500 / 60 world units), the wall threshold (half the window height
//! divided by 1.85), tenths of a world unit, and half the ball height.

pub mod ball;
pub mod frame;
pub mod geometry;
pub mod paddle;
pub mod serve;
