//! Fixed-point arithmetic helpers and the axis-aligned overlap test shared by
//! the simulation step.

use vstd::prelude::*;
use crate::{BALL_RADIUS, PADDLE_HALF_HEIGHT, PADDLE_HALF_WIDTH, MILLIS_PER_SECOND};

verus! {

/// Largest magnitude a velocity component may carry into a step, in units
/// per second.  Chosen so that every product with a time delta fits in `i64`.
pub const VEL_LIMIT: i64 = 1_000_000_000_000;

/// Largest magnitude a position coordinate may carry into a step, in arena
/// units.
pub const POS_LIMIT: i64 = 1_000_000_000_000_000;

/// Largest arena dimension, in arena units.
pub const DIM_LIMIT: i64 = 1_000_000_000;

/// Largest time delta a single step accepts, in milliseconds.
pub const DT_LIMIT: i64 = 1_000_000;

/// Displacement of a point moving at `v` units per second for `dt`
/// milliseconds, rounded toward zero.
pub open spec fn displacement(v: int, dt: int) -> int {
    if v >= 0 {
        (v * dt) / (MILLIS_PER_SECOND as int)
    } else {
        -((-v * dt) / (MILLIS_PER_SECOND as int))
    }
}

/// Computes `displacement(v, dt)` on machine integers.
pub fn scale_velocity(v: i64, dt: i64) -> (r: i64)
    requires
        -VEL_LIMIT <= v <= VEL_LIMIT,
        0 <= dt <= DT_LIMIT,
    ensures
        r == displacement(v as int, dt as int),
        -1_000_000_000_000_000_000 <= r <= 1_000_000_000_000_000_000,
{
    if v >= 0 {
        let m = v as u64;
        let d = dt as u64;
        assert(m * d <= 1_000_000_000_000_000_000u64) by (nonlinear_arith)
            requires
                m <= 1_000_000_000_000u64,
                d <= 1_000_000u64,
        ;
        let q = (m * d) / 1000;
        q as i64
    } else {
        let m = (-v) as u64;
        let d = dt as u64;
        assert(m * d <= 1_000_000_000_000_000_000u64) by (nonlinear_arith)
            requires
                m <= 1_000_000_000_000u64,
                d <= 1_000_000u64,
        ;
        let q = (m * d) / 1000;
        -(q as i64)
    }
}

/// Clamps a paddle's vertical center into the arena of height `h`, testing
/// the upper bound first and then the lower bound on the updated value.
pub open spec fn clamped_paddle_y(y: int, h: int) -> int {
    let upper = h / 2 - PADDLE_HALF_HEIGHT;
    let lower = -(h / 2) + PADDLE_HALF_HEIGHT;
    let capped = if y + PADDLE_HALF_HEIGHT >= h / 2 { upper } else { y };
    if capped - PADDLE_HALF_HEIGHT <= -(h / 2) { lower } else { capped }
}

/// Computes `clamped_paddle_y(y, h)` on machine integers.
pub fn clamp_paddle_y(y: i64, h: i64) -> (r: i64)
    requires
        0 < h <= DIM_LIMIT,
        -4_000_000_000_000_000_000 <= y <= 4_000_000_000_000_000_000,
    ensures
        r == clamped_paddle_y(y as int, h as int),
        -DIM_LIMIT <= r <= DIM_LIMIT,
{
    let half = half_of(h);
    let capped = if y + PADDLE_HALF_HEIGHT >= half { half - PADDLE_HALF_HEIGHT } else { y };
    if capped - PADDLE_HALF_HEIGHT <= -half { -half + PADDLE_HALF_HEIGHT } else { capped }
}

/// Computes `h / 2` for a nonnegative `h` on machine integers.
pub fn half_of(h: i64) -> (r: i64)
    requires
        0 <= h,
    ensures
        r == h as int / 2,
{
    ((h as u64) / 2) as i64
}

/// Lowest vertical center a clamped paddle can have in an arena of height
/// `h`.
pub open spec fn paddle_min_y(h: int) -> int {
    -(h / 2) + PADDLE_HALF_HEIGHT
}

/// Highest vertical center a clamped paddle can have in an arena of height
/// `h`.
pub open spec fn paddle_max_y(h: int) -> int {
    h / 2 - PADDLE_HALF_HEIGHT
}

/// The clamp really lands inside the valid range whenever the arena is at
/// least as tall as a paddle.
pub proof fn lemma_clamp_in_range(y: int, h: int)
    requires
        h >= PADDLE_HALF_HEIGHT * 2,
    ensures
        paddle_min_y(h) <= clamped_paddle_y(y, h) <= paddle_max_y(h),
{
}

/// The clamp leaves every value of the valid range alone whenever the arena
/// is at least as tall as a paddle.
pub proof fn lemma_clamp_identity(y: int, h: int)
    requires
        h >= PADDLE_HALF_HEIGHT * 2,
        paddle_min_y(h) <= y <= paddle_max_y(h),
    ensures
        clamped_paddle_y(y, h) == y,
{
}

/// The ball's square bounding box overlaps a paddle's bounding box; both
/// boxes are closed, so touching edges already count as an overlap.
pub open spec fn ball_overlaps_paddle(bx: int, by: int, px: int, py: int) -> bool {
    &&& bx + BALL_RADIUS >= px - PADDLE_HALF_WIDTH
    &&& bx - BALL_RADIUS <= px + PADDLE_HALF_WIDTH
    &&& by + BALL_RADIUS >= py - PADDLE_HALF_HEIGHT
    &&& by - BALL_RADIUS <= py + PADDLE_HALF_HEIGHT
}

/// Axis-aligned overlap test between the ball's bounding box centered on
/// `(ball_x, ball_y)` and a paddle's bounding box centered on
/// `(paddle_x, paddle_y)`.
pub fn paddle_collision_check(ball_x: i64, ball_y: i64, paddle_x: i64, paddle_y: i64) -> (r: bool)
    requires
        -POS_LIMIT <= ball_x <= POS_LIMIT,
        -POS_LIMIT <= ball_y <= POS_LIMIT,
        -POS_LIMIT <= paddle_x <= POS_LIMIT,
        -POS_LIMIT <= paddle_y <= POS_LIMIT,
    ensures
        r == ball_overlaps_paddle(ball_x as int, ball_y as int, paddle_x as int, paddle_y as int),
{
    ball_x + BALL_RADIUS >= paddle_x - PADDLE_HALF_WIDTH
        && ball_x - BALL_RADIUS <= paddle_x + PADDLE_HALF_WIDTH
        && ball_y + BALL_RADIUS >= paddle_y - PADDLE_HALF_HEIGHT
        && ball_y - BALL_RADIUS <= paddle_y + PADDLE_HALF_HEIGHT
}

} // verus!
