//! Arena geometry: the shared dimensions of the playfield, the paddles and
//! the ball, all in fine units (1110 fine units = 1 world unit).

use vstd::prelude::*;

verus! {

/// Fine units per world unit.
pub const SCALE: i64 = 1110;

/// Paddle width: 15 world units.
pub const PADDLE_WIDTH: i64 = 15 * SCALE;

/// Paddle height: 80 world units.
pub const PADDLE_HEIGHT: i64 = 80 * SCALE;

/// Half the paddle height: 40 world units.
pub const PADDLE_HEIGHT_HALF: i64 = 40 * SCALE;

/// Half the ball height: 7.5 world units.
pub const BALL_HALF: i64 = 7 * SCALE + 555;

/// Half the window height: 400 world units.
pub const WINDOW_HEIGHT_HALF: i64 = 400 * SCALE;

/// Half the window width in world units is 225; the miss rules use the
/// full width, 450 world units, as a margin on either side.
pub const WINDOW_WIDTH: i64 = 450 * SCALE;

/// The soft wall threshold: WINDOW_HEIGHT_HALF / 1.85, i.e. 8000/37 world
/// units. Exact in fine units: 400 * 1110 * 20 / 37 = 240000.
pub const WALL_LIMIT: i64 = 240000;

/// Width of the horizontal band, just inside each arena edge, in which a
/// paddle can return the ball: 5 world units.
pub const HIT_BAND: i64 = 5 * SCALE;

/// Distance a paddle moves per tick at unit speed:
/// 500 world units per second at 60 ticks per second, 25/3 world units.
/// Exact in fine units: 500 * 1110 / 60 = 9250.
pub const PADDLE_STEP: i64 = 9250;

/// Paddles are clamped to [-PADDLE_BOUND, PADDLE_BOUND]:
/// half the window height over two, minus two paddle widths
/// (200 - 30 = 170 world units).
pub const PADDLE_BOUND: i64 = 170 * SCALE;

/// Base ball speed used by the re-serve formula: 400 world units per second.
pub const BALL_SPEED: i64 = 400 * SCALE;

/// Largest coordinate the ball simulator accepts; far beyond the arena but
/// small enough that one integration step can never overflow an i64.
pub const POS_LIMIT: i64 = 0x1000000000000;

/// Largest velocity component the ball simulator accepts.
pub const VEL_LIMIT: i64 = 0x100000000;

} // verus!
