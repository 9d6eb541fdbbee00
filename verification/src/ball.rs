//! The ball simulator: per-tick linear integration, the wall and paddle
//! collision checks on the integrated position, velocity reflection, and
//! the miss/re-serve handling, together with the laws that govern them.

use vstd::prelude::*;
use crate::geometry::BALL_HALF;
use crate::geometry::HIT_BAND;
use crate::geometry::PADDLE_HEIGHT;
use crate::geometry::PADDLE_HEIGHT_HALF;
use crate::geometry::POS_LIMIT;
use crate::geometry::VEL_LIMIT;
use crate::geometry::WALL_LIMIT;
use crate::geometry::WINDOW_WIDTH;
use crate::paddle::PaddlePosition;
use crate::paddle::SnapshotModel;
use crate::serve::is_serve_component;
use crate::serve::serve_component;

verus! {

/// Mathematical view of a velocity vector, in fine units per tick.
pub ghost struct DirectionModel {
    pub x: int,
    pub y: int,
}

/// Mathematical view of the full ball state.
pub ghost struct BallModel {
    pub x: int,
    pub y: int,
    pub dir: DirectionModel,
}

/// Ball velocity in fine units per tick; direction and speed share the one
/// vector, which is never normalized.
#[derive(Clone, Copy, PartialEq, Eq, Structural, Debug)]
pub struct BallDirection {
    pub x: i64,
    pub y: i64,
}

impl View for BallDirection {
    type V = DirectionModel;

    open spec fn view(&self) -> DirectionModel {
        DirectionModel { x: self.x as int, y: self.y as int }
    }
}

/// The ball: position and velocity, in fine units.
#[derive(Clone, Copy, PartialEq, Eq, Structural, Debug)]
pub struct Ball {
    pub x: i64,
    pub y: i64,
    pub direction: BallDirection,
}

impl View for Ball {
    type V = BallModel;

    open spec fn view(&self) -> BallModel {
        BallModel {
            x: self.x as int,
            y: self.y as int,
            dir: DirectionModel { x: self.direction.x as int, y: self.direction.y as int },
        }
    }
}

/// The side effects one tick asks of the audio collaborator: which of the
/// three sounds to play. They are fire-and-forget; dropping them does not
/// touch the simulation state.
#[derive(Clone, Copy, PartialEq, Eq, Structural, Debug)]
pub struct StepEffects {
    pub wall_hit: bool,
    pub paddle_hit: bool,
    pub miss: bool,
}

/// A velocity the simulator accepts.
pub open spec fn dir_in_range(d: DirectionModel) -> bool {
    &&& -VEL_LIMIT <= d.x <= VEL_LIMIT
    &&& -VEL_LIMIT <= d.y <= VEL_LIMIT
}

/// A ball the simulator accepts: coordinates and velocity well inside the
/// machine's integer range, so that one tick can never overflow.
pub open spec fn ball_in_range(b: BallModel) -> bool {
    &&& -POS_LIMIT <= b.x <= POS_LIMIT
    &&& -POS_LIMIT <= b.y <= POS_LIMIT
    &&& dir_in_range(b.dir)
}

/// A snapshot the simulator accepts.
pub open spec fn snapshot_in_range(s: SnapshotModel) -> bool {
    &&& -POS_LIMIT <= s.pl <= POS_LIMIT
    &&& -POS_LIMIT <= s.pr <= POS_LIMIT
}

/// One tick of pure linear integration: the velocity, already scaled to a
/// per-tick step, is added to the position; nothing is damped.
pub open spec fn integrate(b: BallModel) -> BallModel {
    BallModel { x: b.x + b.dir.x, y: b.y + b.dir.y, dir: b.dir }
}

/// Wall check: strictly beyond the soft threshold above or below. The
/// threshold sits short of the rendered edge on purpose, so the ball turns
/// before it visually reaches the boundary.
pub open spec fn hits_wall(b: BallModel) -> bool {
    b.y > WALL_LIMIT || b.y < -WALL_LIMIT
}

/// Vertical overlap of the ball with a paddle centred at `p`, written in
/// the permissive edge-by-edge form the rules use: each conjunct is a
/// disjunction over the ball's two horizontal edges. Since the ball has
/// positive height, this is the ordinary interval-overlap test.
pub open spec fn overlaps_paddle(y: int, p: int) -> bool {
    &&& (y + BALL_HALF > p - PADDLE_HEIGHT_HALF || y - BALL_HALF > p - PADDLE_HEIGHT_HALF)
    &&& (y - BALL_HALF < p + PADDLE_HEIGHT_HALF || y + BALL_HALF < p + PADDLE_HEIGHT_HALF)
}

/// The narrow band just inside the right edge in which the right paddle
/// returns the ball.
pub open spec fn in_right_band(x: int) -> bool {
    x > WINDOW_WIDTH - PADDLE_HEIGHT && x < WINDOW_WIDTH - PADDLE_HEIGHT + HIT_BAND
}

/// The narrow band just inside the left edge in which the left paddle
/// returns the ball.
pub open spec fn in_left_band(x: int) -> bool {
    x < -WINDOW_WIDTH + PADDLE_HEIGHT && x > -WINDOW_WIDTH + PADDLE_HEIGHT - HIT_BAND
}

/// Paddle check: each side is self-contained, vertical overlap with that
/// side's paddle AND the ball inside that side's band; the two sides
/// combine by OR. There is no debounce: a ball lingering in a band flips
/// again every tick it stays there.
pub open spec fn hits_paddle(b: BallModel, s: SnapshotModel) -> bool {
    (overlaps_paddle(b.y, s.pr) && in_right_band(b.x)) || (overlaps_paddle(b.y, s.pl)
        && in_left_band(b.x))
}

/// Miss check: past the left margin, or past the right margin, which is
/// deliberately larger by one paddle height.
pub open spec fn misses(b: BallModel) -> bool {
    b.x < -WINDOW_WIDTH || b.x > WINDOW_WIDTH + PADDLE_HEIGHT
}

/// Integration followed by the two reflections; no miss handling. The wall
/// check flips only the vertical component, the paddle check only the
/// horizontal one, each preserving magnitude.
pub open spec fn bounce(b: BallModel, s: SnapshotModel) -> BallModel {
    let m = integrate(b);
    BallModel {
        x: m.x,
        y: m.y,
        dir: DirectionModel {
            x: if hits_paddle(m, s) {
                -m.dir.x
            } else {
                m.dir.x
            },
            y: if hits_wall(m) {
                -m.dir.y
            } else {
                m.dir.y
            },
        },
    }
}

/// The effects one tick emits, each decided by its own check on the
/// integrated position.
pub open spec fn step_effects(b: BallModel, s: SnapshotModel) -> StepEffects {
    let m = integrate(b);
    StepEffects { wall_hit: hits_wall(m), paddle_hit: hits_paddle(m, s), miss: misses(m) }
}

/// One full tick of the ball simulator: integrate, reflect, and on a miss
/// re-centre the ball and give it the serve velocity.
pub open spec fn step(b: BallModel, s: SnapshotModel, serve: DirectionModel) -> BallModel {
    let c = bounce(b, s);
    if misses(c) {
        BallModel { x: 0, y: 0, dir: serve }
    } else {
        c
    }
}

impl Ball {
    /// A ball at the centre with a fresh serve velocity, as at startup.
    pub fn new() -> (b: Ball)
        ensures
            b.x == 0,
            b.y == 0,
            is_serve_component(b@.dir.x),
            is_serve_component(b@.dir.y),
            ball_in_range(b@),
    {
        let direction = BallDirection { x: serve_component(), y: serve_component() };
        Ball { x: 0, y: 0, direction }
    }
}

/// One deterministic tick of the ball simulator against a given serve
/// velocity; the serve is installed only when the miss check fires.
pub fn ball_step(ball: &mut Ball, position: &PaddlePosition, serve: BallDirection) -> (eff:
    StepEffects)
    requires
        ball_in_range(old(ball)@),
        snapshot_in_range(position@),
    ensures
        final(ball)@ == step(old(ball)@, position@, serve@),
        eff == step_effects(old(ball)@, position@),
{
    ball.x = ball.x + ball.direction.x;
    ball.y = ball.y + ball.direction.y;

    let wall_hit = ball.y > WALL_LIMIT || ball.y < -WALL_LIMIT;
    if wall_hit {
        ball.direction.y = -ball.direction.y;
    }

    let right_overlap = (ball.y + BALL_HALF > position.pr - PADDLE_HEIGHT_HALF || ball.y
        - BALL_HALF > position.pr - PADDLE_HEIGHT_HALF) && (ball.y - BALL_HALF < position.pr
        + PADDLE_HEIGHT_HALF || ball.y + BALL_HALF < position.pr + PADDLE_HEIGHT_HALF);
    let left_overlap = (ball.y + BALL_HALF > position.pl - PADDLE_HEIGHT_HALF || ball.y - BALL_HALF
        > position.pl - PADDLE_HEIGHT_HALF) && (ball.y - BALL_HALF < position.pl
        + PADDLE_HEIGHT_HALF || ball.y + BALL_HALF < position.pl + PADDLE_HEIGHT_HALF);
    let paddle_hit = (right_overlap && ball.x > WINDOW_WIDTH - PADDLE_HEIGHT && ball.x
        < WINDOW_WIDTH - PADDLE_HEIGHT + HIT_BAND) || (left_overlap && ball.x < -WINDOW_WIDTH
        + PADDLE_HEIGHT && ball.x > -WINDOW_WIDTH + PADDLE_HEIGHT - HIT_BAND);
    if paddle_hit {
        ball.direction.x = -ball.direction.x;
    }

    let miss = ball.x < -WINDOW_WIDTH || ball.x > WINDOW_WIDTH + PADDLE_HEIGHT;
    if miss {
        ball.x = 0;
        ball.y = 0;
        ball.direction = serve;
    }

    StepEffects { wall_hit, paddle_hit, miss }
}

/// One tick of the ball simulator, drawing the re-serve velocity afresh.
/// Whatever the draws return, the tick is the deterministic step against
/// some serve velocity that the serve formula can produce.
pub fn ball_move(ball: &mut Ball, position: &PaddlePosition) -> (eff: StepEffects)
    requires
        ball_in_range(old(ball)@),
        snapshot_in_range(position@),
    ensures
        eff == step_effects(old(ball)@, position@),
        exists|serve: DirectionModel|
            #[trigger] step(old(ball)@, position@, serve) == final(ball)@
                && is_serve_component(serve.x) && is_serve_component(serve.y),
        !eff.miss ==> final(ball)@ == bounce(old(ball)@, position@),
        eff.miss ==> final(ball).x == 0 && final(ball).y == 0 && is_serve_component(
            final(ball)@.dir.x,
        ) && is_serve_component(final(ball)@.dir.y),
        dir_in_range(final(ball)@.dir),
{
    let serve = BallDirection { x: serve_component(), y: serve_component() };
    ball_step(ball, position, serve)
}

/// Each check of a tick is decided by its own predicate on the integrated
/// state alone; the wall check touches only the vertical velocity, the
/// paddle check only the horizontal one, and the two may fire in the same
/// tick. A miss, decided independently as well, then replaces position and
/// velocity wholesale.
pub proof fn lemma_checks_independent(b: BallModel, s: SnapshotModel, serve: DirectionModel)
    ensures
        step_effects(b, s).wall_hit == hits_wall(integrate(b)),
        step_effects(b, s).paddle_hit == hits_paddle(integrate(b), s),
        step_effects(b, s).miss == misses(integrate(b)),
        !step_effects(b, s).miss ==> step(b, s, serve).dir.y == (if hits_wall(integrate(b)) {
            -b.dir.y
        } else {
            b.dir.y
        }),
        !step_effects(b, s).miss ==> step(b, s, serve).dir.x == (if hits_paddle(
            integrate(b),
            s,
        ) {
            -b.dir.x
        } else {
            b.dir.x
        }),
        step_effects(b, s).miss ==> step(b, s, serve) == (BallModel { x: 0, y: 0, dir: serve }),
{
}

/// A ball past either miss threshold is reset exactly once, to the centre
/// with the serve velocity, however far past the threshold it lies.
pub proof fn lemma_miss_resets(b: BallModel, s: SnapshotModel, serve: DirectionModel)
    requires
        misses(integrate(b)),
    ensures
        step(b, s, serve) == (BallModel { x: 0, y: 0, dir: serve }),
        step_effects(b, s).miss,
{
}

/// At exactly the wall threshold the ball does not reflect: the wall check
/// is strict.
pub proof fn lemma_wall_boundary(b: BallModel, s: SnapshotModel, serve: DirectionModel)
    requires
        integrate(b).y == WALL_LIMIT || integrate(b).y == -WALL_LIMIT,
    ensures
        !step_effects(b, s).wall_hit,
        step(b, s, serve).dir.y == (if step_effects(b, s).miss {
            serve.y
        } else {
            b.dir.y
        }),
{
}

/// `n` ticks of the simulator against a fixed snapshot and serve velocity.
pub open spec fn run(b: BallModel, s: SnapshotModel, serve: DirectionModel, n: nat) -> BallModel
    decreases n,
{
    if n == 0 {
        b
    } else {
        step(run(b, s, serve, (n - 1) as nat), s, serve)
    }
}

/// A tick in which no check fires on the integrated position.
pub open spec fn quiet(b: BallModel, s: SnapshotModel) -> bool {
    &&& !hits_wall(integrate(b))
    &&& !hits_paddle(integrate(b), s)
    &&& !misses(integrate(b))
}

/// Free flight is exact linear motion: while no check fires, `n` ticks
/// move the ball by exactly `n` times its velocity and leave the velocity
/// untouched.
pub proof fn lemma_free_flight(b: BallModel, s: SnapshotModel, serve: DirectionModel, n: nat)
    requires
        forall|k: nat| k < n ==> quiet(#[trigger] run(b, s, serve, k), s),
    ensures
        run(b, s, serve, n).x == b.x + n * b.dir.x,
        run(b, s, serve, n).y == b.y + n * b.dir.y,
        run(b, s, serve, n).dir == b.dir,
    decreases n,
{
    if n > 0 {
        lemma_free_flight(b, s, serve, (n - 1) as nat);
        let prev = run(b, s, serve, (n - 1) as nat);
        assert(quiet(prev, s));
        assert(step(prev, s, serve) == integrate(prev));
        let nn = n as int;
        assert((nn - 1) * b.dir.x + b.dir.x == nn * b.dir.x) by (nonlinear_arith);
        assert((nn - 1) * b.dir.y + b.dir.y == nn * b.dir.y) by (nonlinear_arith);
    }
}

} // verus!
