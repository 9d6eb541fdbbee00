//! The frame driver's per-tick core: both paddle controllers run and
//! publish their positions in the snapshot before the ball simulator reads
//! it. The surrounding loop only samples keys, calls this once per tick at
//! the fixed rate, and forwards the returned effects to rendering and
//! audio.

use vstd::prelude::*;
use crate::ball::Ball;
use crate::ball::StepEffects;
use crate::ball::ball_in_range;
use crate::ball::ball_move;
use crate::ball::bounce;
use crate::ball::dir_in_range;
use crate::ball::step_effects;
use crate::paddle::LeftPaddle;
use crate::paddle::PaddlePosition;
use crate::paddle::RightPaddle;
use crate::paddle::left_paddle_move;
use crate::paddle::paddle_update;
use crate::paddle::paddle_wf;
use crate::paddle::right_paddle_move;
use crate::serve::is_serve_component;

verus! {

/// The pressed state of the four logical keys, sampled once per tick.
#[derive(Clone, Copy, PartialEq, Eq, Structural, Debug)]
pub struct FrameInput {
    pub left_up: bool,
    pub left_down: bool,
    pub right_up: bool,
    pub right_down: bool,
}

/// One synchronous tick: the left controller, the right controller, then
/// the ball simulator against the snapshot both controllers just wrote.
/// The strict ordering is what keeps the collision checks off stale paddle
/// positions.
pub fn frame_tick(
    left: &mut LeftPaddle,
    right: &mut RightPaddle,
    position: &mut PaddlePosition,
    ball: &mut Ball,
    input: FrameInput,
) -> (eff: StepEffects)
    requires
        paddle_wf(old(left)@),
        paddle_wf(old(right)@),
        ball_in_range(old(ball)@),
    ensures
        final(left)@.y == paddle_update(
            old(left)@.y,
            old(left)@.speed,
            input.left_up,
            input.left_down,
        ),
        final(right)@.y == paddle_update(
            old(right)@.y,
            old(right)@.speed,
            input.right_up,
            input.right_down,
        ),
        final(left)@.speed == old(left)@.speed,
        final(right)@.speed == old(right)@.speed,
        paddle_wf(final(left)@),
        paddle_wf(final(right)@),
        final(position).pl == final(left).y,
        final(position).pr == final(right).y,
        eff == step_effects(old(ball)@, final(position)@),
        !eff.miss ==> final(ball)@ == bounce(old(ball)@, final(position)@),
        eff.miss ==> final(ball).x == 0 && final(ball).y == 0 && is_serve_component(
            final(ball)@.dir.x,
        ) && is_serve_component(final(ball)@.dir.y),
        dir_in_range(final(ball)@.dir),
{
    left_paddle_move(left, input.left_up, input.left_down, position);
    right_paddle_move(right, input.right_up, input.right_down, position);
    ball_move(ball, position)
}

} // verus!
