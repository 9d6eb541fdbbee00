//! Re-serving the ball after a miss: each velocity component is drawn from
//! a two-factor product formula, (base speed + spread) * tilt * 10, scaled
//! to fine units per tick. The product of two independent draws gives the
//! serve its characteristic shape: sign and magnitude jointly random,
//! concentrated near zero with occasional fast serves.

use vstd::arithmetic::div_mod::lemma_div_is_ordered;
use vstd::prelude::*;
use rand::Rng;
use crate::geometry::BALL_SPEED;
use crate::geometry::SCALE;

verus! {

/// Spread added to the base speed before the tilt factor: 10 world units.
pub const SERVE_SPREAD: i64 = 10 * SCALE;

/// Bound of the tilt factor, a dimensionless scalar in fine units: 0.1.
pub const SERVE_TILT: i64 = 111;

/// One divisor folding together the final factor 10, the 60 ticks per
/// second and the fine-unit scale of the tilt factor: 60 * 1110 / 10.
pub const SERVE_DIV: i64 = 6660;

/// Every serve component is strictly below this magnitude.
pub const SERVE_MAX: i64 = 7600;

/// Integer division rounding toward zero, as the scaling of the serve
/// product back down to fine units does.
pub open spec fn div_toward_zero(p: int, d: int) -> int {
    if p >= 0 {
        p / d
    } else {
        -((-p) / d)
    }
}

/// The serve formula on the two draws: `a` is the fine-unit spread offset,
/// `b` the fine-unit tilt factor.
pub open spec fn serve_value(a: int, b: int) -> int {
    div_toward_zero((BALL_SPEED + a) * b, SERVE_DIV as int)
}

/// A value the re-serve can produce: the serve formula applied to some
/// spread draw in [-SERVE_SPREAD, SERVE_SPREAD) and some tilt draw in
/// [-SERVE_TILT, SERVE_TILT).
pub open spec fn is_serve_component(v: int) -> bool {
    exists|a: int, b: int|
        -SERVE_SPREAD <= a < SERVE_SPREAD && -SERVE_TILT <= b < SERVE_TILT && v
            == serve_value(a, b)
}

/// Relies on rand::Rng::gen_range over a half-open integer range: the draw
/// lies in [lo, hi), and the call panics only on an empty range.
#[verifier::external_body]
fn sample_range(lo: i64, hi: i64) -> (r: i64)
    requires
        lo < hi,
    ensures
        lo <= r < hi,
{
    rand::thread_rng().gen_range(lo..hi)
}

/// The serve formula evaluated on a given pair of draws: exactly
/// `serve_value`, in executable form.
pub fn serve_from_draws(a: i64, b: i64) -> (v: i64)
    requires
        -SERVE_SPREAD <= a < SERVE_SPREAD,
        -SERVE_TILT <= b < SERVE_TILT,
    ensures
        v as int == serve_value(a as int, b as int),
        -SERVE_MAX < v < SERVE_MAX,
{
    let s: i64 = BALL_SPEED + a;
    proof {
        assert(-50600000 <= s * b && s * b <= 50600000) by (nonlinear_arith)
            requires
                432900 <= s <= 455099,
                -111 <= b <= 110,
        ;
    }
    let prod: i64 = s * b;
    let mag: u64 = if prod >= 0 {
        prod as u64
    } else {
        (-prod) as u64
    };
    let q: u64 = mag / 6660;
    proof {
        lemma_div_is_ordered(mag as int, 50600000int, 6660int);
        assert(50600000int / 6660int == 7597int) by (nonlinear_arith);
    }
    if prod >= 0 {
        q as i64
    } else {
        -(q as i64)
    }
}

/// One velocity component of a fresh serve, in fine units per tick: the
/// serve formula applied to a fresh spread draw and a fresh tilt draw.
pub fn serve_component() -> (v: i64)
    ensures
        is_serve_component(v as int),
        -SERVE_MAX < v < SERVE_MAX,
{
    let a: i64 = sample_range(-SERVE_SPREAD, SERVE_SPREAD);
    let b: i64 = sample_range(-SERVE_TILT, SERVE_TILT);
    serve_from_draws(a, b)
}

} // verus!
