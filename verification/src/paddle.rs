//! The paddle controllers: per-tick vertical movement from the sampled
//! up/down input, clamped to the paddle bound, and published in the shared
//! position snapshot that the ball simulator reads later in the same tick.

use vstd::prelude::*;
use crate::geometry::PADDLE_BOUND;
use crate::geometry::PADDLE_STEP;

verus! {

/// Largest speed multiplier a paddle controller accepts.
pub const SPEED_LIMIT: i64 = 1000;

/// Vertical speed scalar of a paddle: a plain multiplier of the per-tick
/// paddle step. It is 1 in ordinary play and is kept as a field for
/// extensibility.
#[derive(Clone, Copy, PartialEq, Eq, Structural, Debug)]
pub struct Velocity {
    pub y: i64,
}

/// Mathematical view of a paddle: position and speed multiplier.
pub ghost struct PaddleModel {
    pub y: int,
    pub speed: int,
}

/// The left paddle: vertical position in fine units, and its speed scalar.
#[derive(Clone, Copy, PartialEq, Eq, Structural, Debug)]
pub struct LeftPaddle {
    pub y: i64,
    pub velocity: Velocity,
}

/// The right paddle: vertical position in fine units, and its speed scalar.
#[derive(Clone, Copy, PartialEq, Eq, Structural, Debug)]
pub struct RightPaddle {
    pub y: i64,
    pub velocity: Velocity,
}

impl View for LeftPaddle {
    type V = PaddleModel;

    open spec fn view(&self) -> PaddleModel {
        PaddleModel { y: self.y as int, speed: self.velocity.y as int }
    }
}

impl View for RightPaddle {
    type V = PaddleModel;

    open spec fn view(&self) -> PaddleModel {
        PaddleModel { y: self.y as int, speed: self.velocity.y as int }
    }
}

/// Mathematical view of the paddle-position snapshot.
pub ghost struct SnapshotModel {
    pub pl: int,
    pub pr: int,
}

/// Latest vertical position of each paddle, written by the paddle
/// controllers and read by the ball simulator strictly afterwards in the
/// same tick.
#[derive(Clone, Copy, PartialEq, Eq, Structural, Debug)]
pub struct PaddlePosition {
    pub pl: i64,
    pub pr: i64,
}

impl View for PaddlePosition {
    type V = SnapshotModel;

    open spec fn view(&self) -> SnapshotModel {
        SnapshotModel { pl: self.pl as int, pr: self.pr as int }
    }
}

/// A paddle the controllers accept: position within the bound, speed
/// multiplier small and non-negative.
pub open spec fn paddle_wf(p: PaddleModel) -> bool {
    &&& -PADDLE_BOUND <= p.y <= PADDLE_BOUND
    &&& 0 <= p.speed <= SPEED_LIMIT
}

/// Where the conditional up/down moves take the paddle before clamping.
/// The two branches are checked independently, the down branch against the
/// position the up branch produced; with both keys held the moves cancel.
pub open spec fn moved(y: int, speed: int, up: bool, down: bool) -> int {
    let y1 = if up && y < PADDLE_BOUND {
        y + speed * PADDLE_STEP
    } else {
        y
    };
    if down && y1 > -PADDLE_BOUND {
        y1 - speed * PADDLE_STEP
    } else {
        y1
    }
}

/// Saturate a position at the paddle bound.
pub open spec fn clamp_to_bound(v: int) -> int {
    if v > PADDLE_BOUND {
        PADDLE_BOUND as int
    } else if v < -PADDLE_BOUND {
        -PADDLE_BOUND as int
    } else {
        v
    }
}

/// One tick of a paddle controller: the conditional moves, then the clamp.
pub open spec fn paddle_update(y: int, speed: int, up: bool, down: bool) -> int {
    clamp_to_bound(moved(y, speed, up, down))
}

/// However a tick moves a paddle, the position it leaves lies within
/// [-PADDLE_BOUND, PADDLE_BOUND]: the clamp saturates, and a clamped
/// position passed through another update stays clamped.
pub proof fn lemma_paddle_position_bounded(y: int, speed: int, up: bool, down: bool)
    ensures
        -PADDLE_BOUND <= paddle_update(y, speed, up, down) <= PADDLE_BOUND,
{
}

/// The shared core of both controllers.
fn move_paddle(y: i64, speed: i64, up: bool, down: bool) -> (r: i64)
    requires
        -PADDLE_BOUND <= y <= PADDLE_BOUND,
        0 <= speed <= SPEED_LIMIT,
    ensures
        r == paddle_update(y as int, speed as int, up, down),
        -PADDLE_BOUND <= r <= PADDLE_BOUND,
{
    let delta: i64 = speed * PADDLE_STEP;
    let mut y1: i64 = y;
    if up && y1 < PADDLE_BOUND {
        y1 = y1 + delta;
    }
    if down && y1 > -PADDLE_BOUND {
        y1 = y1 - delta;
    }
    if y1 > PADDLE_BOUND {
        y1 = PADDLE_BOUND;
    } else if y1 < -PADDLE_BOUND {
        y1 = -PADDLE_BOUND;
    }
    y1
}

impl LeftPaddle {
    /// A left paddle at the centre with unit speed, as at startup.
    pub fn new() -> (p: LeftPaddle)
        ensures
            p.y == 0,
            p.velocity.y == 1,
            paddle_wf(p@),
    {
        LeftPaddle { y: 0, velocity: Velocity { y: 1 } }
    }
}

impl RightPaddle {
    /// A right paddle at the centre with unit speed, as at startup.
    pub fn new() -> (p: RightPaddle)
        ensures
            p.y == 0,
            p.velocity.y == 1,
            paddle_wf(p@),
    {
        RightPaddle { y: 0, velocity: Velocity { y: 1 } }
    }
}

impl PaddlePosition {
    /// The startup snapshot: both paddles at the centre.
    pub fn new() -> (p: PaddlePosition)
        ensures
            p.pl == 0,
            p.pr == 0,
    {
        PaddlePosition { pl: 0, pr: 0 }
    }
}

/// One tick of the left paddle controller: move by the sampled input,
/// clamp, and publish the new position in the snapshot's left slot.
pub fn left_paddle_move(
    paddle: &mut LeftPaddle,
    up: bool,
    down: bool,
    position: &mut PaddlePosition,
)
    requires
        paddle_wf(old(paddle)@),
    ensures
        final(paddle)@.y == paddle_update(old(paddle)@.y, old(paddle)@.speed, up, down),
        final(paddle)@.speed == old(paddle)@.speed,
        paddle_wf(final(paddle)@),
        final(position).pl == final(paddle).y,
        final(position).pr == old(position).pr,
{
    paddle.y = move_paddle(paddle.y, paddle.velocity.y, up, down);
    position.pl = paddle.y;
}

/// One tick of the right paddle controller: move by the sampled input,
/// clamp, and publish the new position in the snapshot's right slot.
pub fn right_paddle_move(
    paddle: &mut RightPaddle,
    up: bool,
    down: bool,
    position: &mut PaddlePosition,
)
    requires
        paddle_wf(old(paddle)@),
    ensures
        final(paddle)@.y == paddle_update(old(paddle)@.y, old(paddle)@.speed, up, down),
        final(paddle)@.speed == old(paddle)@.speed,
        paddle_wf(final(paddle)@),
        final(position).pr == final(paddle).y,
        final(position).pl == old(position).pl,
{
    paddle.y = move_paddle(paddle.y, paddle.velocity.y, up, down);
    position.pr = paddle.y;
}

} // verus!
