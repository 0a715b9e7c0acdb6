//! Laws of the step, stated over the same spec model that `step`'s contract
//! uses, so that each holds of every state a step can reach.

use vstd::prelude::*;
use crate::arena::Arena;
use crate::geom::{ball_overlaps_paddle, displacement, lemma_clamp_identity, lemma_clamp_in_range,
    paddle_max_y, paddle_min_y};
use crate::sim::{exit_event, left_exit, paddle_y_after, right_exit, stepped_ball,
    velocity_after_paddles_from, vertical_hit, Ball, Paddle, PaddleInput, ScoreEvent, Simulation};
use crate::{BOUNCE_FACTOR, PADDLE_HEIGHT};

verus! {

/// However a paddle moves, its vertical center lands in the valid range of
/// an arena at least as tall as a paddle; since every step moves each paddle
/// by `paddle_y_after`, every step sequence keeps every paddle there.
pub proof fn lemma_paddle_stays_in_range(y: int, inp: PaddleInput, dt: int, h: int)
    requires
        h >= PADDLE_HEIGHT,
    ensures
        paddle_min_y(h) <= paddle_y_after(y, inp, dt, h) <= paddle_max_y(h),
{
    lemma_clamp_in_range(y + crate::sim::input_delta(inp, dt), h);
}

/// A ball that overlaps no paddle keeps its velocity through the paddle
/// resolution phase.
pub proof fn lemma_no_overlap_keeps_velocity(
    ps: Seq<Paddle>,
    i: int,
    bx: int,
    by: int,
    vx: int,
    vy: int,
)
    requires
        forall|j: int| 0 <= j < ps.len() ==> !ball_overlaps_paddle(
            bx,
            by,
            (#[trigger] ps[j]).x as int,
            ps[j].y as int,
        ),
    ensures
        velocity_after_paddles_from(ps, i, bx, by, vx, vy) == (vx, vy),
    decreases ps.len() - i,
{
    if 0 <= i < ps.len() {
        lemma_no_overlap_keeps_velocity(ps, i + 1, bx, by, vx, vy);
    }
}

/// A step that begins with the ball's right edge at or beyond the right
/// boundary reports that the left player scored, restarts the ball at the
/// center with its horizontal velocity flipped, and then integrates from
/// there; the matching counter increment is part of `step`'s own contract.
/// The restarted ball must overlap no paddle and the arena must be tall
/// enough that the center is clear of both horizontal walls.
pub proof fn lemma_right_exit_scores(b: Ball, a: Arena, ps: Seq<Paddle>, dt: int)
    requires
        right_exit(b.x as int, a.width as int),
        forall|j: int| 0 <= j < ps.len() ==> !ball_overlaps_paddle(
            0,
            0,
            (#[trigger] ps[j]).x as int,
            ps[j].y as int,
        ),
        !vertical_hit(0, a.height as int),
    ensures
        exit_event(b.x as int, a.width as int) == Some(ScoreEvent::LeftScored),
        ({
            let r = stepped_ball(b, a, ps, dt);
            &&& r.2 == -(b.vx as int)
            &&& r.3 == b.vy as int
            &&& r.0 == displacement(-(b.vx as int), dt)
            &&& r.1 == displacement(b.vy as int, dt)
        }),
{
    lemma_no_overlap_keeps_velocity(ps, 0, 0, 0, -(b.vx as int), b.vy as int);
}

/// A step in which the ball overlaps the only paddle, scores on neither
/// boundary and stays clear of the horizontal walls flips the ball's
/// horizontal velocity and replaces the vertical velocity with the strike
/// offset scaled by `BOUNCE_FACTOR`.
pub proof fn lemma_paddle_bounce(b: Ball, a: Arena, ps: Seq<Paddle>, dt: int)
    requires
        !right_exit(b.x as int, a.width as int),
        !left_exit(b.x as int, a.width as int),
        ps.len() == 1,
        ball_overlaps_paddle(b.x as int, b.y as int, ps[0].x as int, ps[0].y as int),
        !vertical_hit(b.y as int, a.height as int),
    ensures
        ({
            let r = stepped_ball(b, a, ps, dt);
            &&& r.2 == -(b.vx as int)
            &&& r.3 == (b.y - ps[0].y) * BOUNCE_FACTOR
            &&& r.0 == b.x + displacement(-(b.vx as int), dt)
            &&& r.1 == b.y + displacement((b.y - ps[0].y) * BOUNCE_FACTOR, dt)
        }),
{
    assert(velocity_after_paddles_from(
        ps,
        1,
        b.x as int,
        b.y as int,
        -(b.vx as int),
        (b.y - ps[0].y) * BOUNCE_FACTOR,
    ) == (-(b.vx as int), (b.y - ps[0].y) * BOUNCE_FACTOR));
}

/// A step in which the ball's top or bottom edge has reached a vertical
/// boundary, scores on neither side and overlaps no paddle flips the
/// vertical velocity and leaves the horizontal velocity unchanged.
pub proof fn lemma_wall_bounce(b: Ball, a: Arena, ps: Seq<Paddle>, dt: int)
    requires
        !right_exit(b.x as int, a.width as int),
        !left_exit(b.x as int, a.width as int),
        forall|j: int| 0 <= j < ps.len() ==> !ball_overlaps_paddle(
            b.x as int,
            b.y as int,
            (#[trigger] ps[j]).x as int,
            ps[j].y as int,
        ),
        vertical_hit(b.y as int, a.height as int),
    ensures
        ({
            let r = stepped_ball(b, a, ps, dt);
            &&& r.2 == b.vx as int
            &&& r.3 == -(b.vy as int)
            &&& r.0 == b.x + displacement(b.vx as int, dt)
            &&& r.1 == b.y + displacement(-(b.vy as int), dt)
        }),
{
    lemma_no_overlap_keeps_velocity(ps, 0, b.x as int, b.y as int, b.vx as int, b.vy as int);
}

/// A zero-delta step with every input at rest changes nothing, provided the
/// ball is clear of both boundaries and of every paddle and each paddle
/// already sits in its valid range: together with `step`'s contract, calling
/// `step(0, all-stay)` any number of times leaves the state untouched.
pub proof fn lemma_zero_dt_step_fixes_state(s: Simulation, inputs: Seq<PaddleInput>)
    requires
        s.arena.height >= PADDLE_HEIGHT,
        inputs.len() == s.paddles@.len(),
        forall|j: int| 0 <= j < inputs.len() ==> inputs[j] == PaddleInput::Stay,
        forall|j: int| 0 <= j < s.paddles@.len() ==> paddle_min_y(s.arena.height as int) <= (
        #[trigger] s.paddles@[j]).y <= paddle_max_y(s.arena.height as int),
        !right_exit(s.ball.x as int, s.arena.width as int),
        !left_exit(s.ball.x as int, s.arena.width as int),
        forall|j: int| 0 <= j < s.paddles@.len() ==> !ball_overlaps_paddle(
            s.ball.x as int,
            s.ball.y as int,
            (#[trigger] s.paddles@[j]).x as int,
            s.paddles@[j].y as int,
        ),
        !vertical_hit(s.ball.y as int, s.arena.height as int),
    ensures
        forall|j: int| 0 <= j < s.paddles@.len() ==> paddle_y_after(
            (#[trigger] s.paddles@[j]).y as int,
            inputs[j],
            0,
            s.arena.height as int,
        ) == s.paddles@[j].y,
        stepped_ball(s.ball, s.arena, s.paddles@, 0) == (
            s.ball.x as int,
            s.ball.y as int,
            s.ball.vx as int,
            s.ball.vy as int,
        ),
        exit_event(s.ball.x as int, s.arena.width as int) is None,
{
    let h = s.arena.height as int;
    assert forall|j: int| 0 <= j < s.paddles@.len() implies paddle_y_after(
        (#[trigger] s.paddles@[j]).y as int,
        inputs[j],
        0,
        h,
    ) == s.paddles@[j].y by {
        lemma_clamp_identity(s.paddles@[j].y as int, h);
    }
    lemma_no_overlap_keeps_velocity(
        s.paddles@,
        0,
        s.ball.x as int,
        s.ball.y as int,
        s.ball.vx as int,
        s.ball.vy as int,
    );
}

} // verus!
