//! The simulation state and the per-frame step: paddle movement, scoring,
//! paddle collisions, wall bounces and explicit Euler integration, in that
//! fixed order.

use vstd::prelude::*;
use crate::arena::Arena;
use crate::geom::{
    ball_overlaps_paddle, clamp_paddle_y, clamped_paddle_y, displacement, half_of,
    paddle_collision_check, paddle_max_y, paddle_min_y, scale_velocity,
    DT_LIMIT, POS_LIMIT, VEL_LIMIT,
};
use crate::rng::coin_flip;
use crate::{BALL_RADIUS, BALL_VELOCITY, BOUNCE_FACTOR, PADDLE_HALF_WIDTH,
    PADDLE_PADDING, PADDLE_SPEED};

verus! {

/// Which side of the arena a paddle defends.
#[derive(Clone, Copy, Debug, PartialEq, Eq, Structural)]
pub enum Side {
    Left,
    Right,
}

/// A player's movement intent for one frame.
#[derive(Clone, Copy, Debug, PartialEq, Eq, Structural)]
pub enum PaddleInput {
    MoveUp,
    MoveDown,
    Stay,
}

/// The state change reported when the ball crosses a horizontal boundary:
/// the player away from that boundary scores.
#[derive(Clone, Copy, Debug, PartialEq, Eq, Structural)]
pub enum ScoreEvent {
    LeftScored,
    RightScored,
}

/// The ball's center and velocity, in arena units and units per second.
#[derive(Clone, Copy, Debug, PartialEq, Eq, Structural)]
pub struct Ball {
    pub x: i64,
    pub y: i64,
    pub vx: i64,
    pub vy: i64,
}

/// A paddle's center; its width and height are the fixed constants
/// `PADDLE_WIDTH` and `PADDLE_HEIGHT`.
#[derive(Clone, Copy, Debug, PartialEq, Eq, Structural)]
pub struct Paddle {
    pub side: Side,
    pub x: i64,
    pub y: i64,
}

/// Per-player counters; each only ever grows.
#[derive(Clone, Copy, Debug, PartialEq, Eq, Structural)]
pub struct Score {
    pub left: u64,
    pub right: u64,
}

impl Ball {
    /// The ball's coordinates are small enough for the step arithmetic.
    pub open spec fn fits(self) -> bool {
        &&& -POS_LIMIT <= self.x <= POS_LIMIT
        &&& -POS_LIMIT <= self.y <= POS_LIMIT
        &&& -VEL_LIMIT <= self.vx <= VEL_LIMIT
        &&& -VEL_LIMIT <= self.vy <= VEL_LIMIT
    }
}

impl Paddle {
    /// The paddle's coordinates are small enough for the step arithmetic.
    pub open spec fn fits(self) -> bool {
        &&& -POS_LIMIT <= self.x <= POS_LIMIT
        &&& -POS_LIMIT <= self.y <= POS_LIMIT
    }
}

impl Ball {
    /// A ball at the arena center, served horizontally toward the given
    /// side at the fixed serve speed.
    pub fn serve(toward_right: bool) -> (r: Ball)
        ensures
            r.x == 0,
            r.y == 0,
            r.vy == 0,
            r.vx == (if toward_right {
                BALL_VELOCITY as int
            } else {
                -(BALL_VELOCITY as int)
            }),
            r.fits(),
    {
        let vx: i64 = if toward_right {
            BALL_VELOCITY
        } else {
            -BALL_VELOCITY
        };
        Ball { x: 0, y: 0, vx, vy: 0 }
    }
}

/// Where the left paddle starts: its near edge one padding inside the left
/// boundary, vertically centered.
pub open spec fn left_paddle_start_x(w: int) -> int {
    -(w / 2) + PADDLE_HALF_WIDTH + PADDLE_PADDING
}

/// Where the right paddle starts, mirroring the left one.
pub open spec fn right_paddle_start_x(w: int) -> int {
    w / 2 - PADDLE_HALF_WIDTH - PADDLE_PADDING
}

/// The ball's right edge has reached or passed the right boundary of an
/// arena of width `w`.
pub open spec fn right_exit(x: int, w: int) -> bool {
    x + BALL_RADIUS >= w / 2
}

/// The ball's left edge has reached or passed the left boundary.
pub open spec fn left_exit(x: int, w: int) -> bool {
    x - BALL_RADIUS <= -(w / 2)
}

/// The ball's top or bottom edge has reached or passed a vertical boundary
/// of an arena of height `h`.
pub open spec fn vertical_hit(y: int, h: int) -> bool {
    y + BALL_RADIUS >= h / 2 || y - BALL_RADIUS <= -(h / 2)
}

/// The scoring event a step reports, decided by the ball's pre-integration
/// position; the right boundary is tested first.
pub open spec fn exit_event(x: int, w: int) -> Option<ScoreEvent> {
    if right_exit(x, w) {
        Some(ScoreEvent::LeftScored)
    } else if left_exit(x, w) {
        Some(ScoreEvent::RightScored)
    } else {
        None
    }
}

/// Vertical movement a paddle's input asks for during `dt` milliseconds.
pub open spec fn input_delta(inp: PaddleInput, dt: int) -> int {
    match inp {
        PaddleInput::MoveUp => displacement(PADDLE_SPEED as int, dt),
        PaddleInput::MoveDown => -displacement(PADDLE_SPEED as int, dt),
        PaddleInput::Stay => 0,
    }
}

/// A paddle's vertical center after one step: moved by its input, then
/// clamped into the arena of height `h`.
pub open spec fn paddle_y_after(y: int, inp: PaddleInput, dt: int, h: int) -> int {
    clamped_paddle_y(y + input_delta(inp, dt), h)
}

/// The ball's velocity after resolving, one paddle at a time from index `i`
/// on, every overlap between the ball at `(bx, by)` and the paddles: each
/// overlap flips the horizontal sign and replaces the vertical velocity with
/// the strike offset scaled by `BOUNCE_FACTOR`.
pub open spec fn velocity_after_paddles_from(
    ps: Seq<Paddle>,
    i: int,
    bx: int,
    by: int,
    vx: int,
    vy: int,
) -> (int, int)
    decreases ps.len() - i,
{
    if i < 0 || i >= ps.len() {
        (vx, vy)
    } else if ball_overlaps_paddle(bx, by, ps[i].x as int, ps[i].y as int) {
        velocity_after_paddles_from(ps, i + 1, bx, by, -vx, (by - ps[i].y) * BOUNCE_FACTOR)
    } else {
        velocity_after_paddles_from(ps, i + 1, bx, by, vx, vy)
    }
}

/// The ball's velocity after resolving every paddle overlap in order.
pub open spec fn velocity_after_paddles(
    ps: Seq<Paddle>,
    bx: int,
    by: int,
    vx: int,
    vy: int,
) -> (int, int) {
    velocity_after_paddles_from(ps, 0, bx, by, vx, vy)
}

/// The ball after one full step against the moved paddles `ps`: scoring
/// reset, paddle bounces, wall bounce, then integration; the result is
/// `(x, y, vx, vy)`.
pub open spec fn stepped_ball(b: Ball, a: Arena, ps: Seq<Paddle>, dt: int) -> (int, int, int, int) {
    let w = a.width as int;
    let h = a.height as int;
    let scored = right_exit(b.x as int, w) || left_exit(b.x as int, w);
    let bx = if scored { 0int } else { b.x as int };
    let by = if scored { 0int } else { b.y as int };
    let vx0 = if scored { -(b.vx as int) } else { b.vx as int };
    let v = velocity_after_paddles(ps, bx, by, vx0, b.vy as int);
    let vy1 = if vertical_hit(by, h) { -v.1 } else { v.1 };
    (bx + displacement(v.0, dt), by + displacement(vy1, dt), v.0, vy1)
}

/// The whole simulation: the arena, the ball, the paddles and the score.
pub struct Simulation {
    pub arena: Arena,
    pub ball: Ball,
    pub paddles: Vec<Paddle>,
    pub score: Score,
}

impl Simulation {
    /// The arena is well formed, every coordinate is small enough for the
    /// step arithmetic, and both counters can still grow.
    pub open spec fn wf(self) -> bool {
        &&& self.arena.wf()
        &&& self.ball.fits()
        &&& forall|i: int| 0 <= i < self.paddles@.len() ==> (#[trigger] self.paddles@[i]).fits()
        &&& self.score.left < u64::MAX
        &&& self.score.right < u64::MAX
    }

    /// Advances the simulation by `dt` milliseconds with one movement intent
    /// per paddle, in the fixed order: move and clamp the paddles, test the
    /// horizontal boundaries on the pre-integration ball (scoring resets the
    /// ball to the center and flips its horizontal velocity), resolve paddle
    /// overlaps, reflect off the top and bottom walls, then integrate.
    pub fn step(&mut self, dt: i64, inputs: &Vec<PaddleInput>) -> (r: Option<ScoreEvent>)
        requires
            old(self).wf(),
            0 <= dt <= DT_LIMIT,
            inputs@.len() == old(self).paddles@.len(),
        ensures
            final(self).arena == old(self).arena,
            final(self).paddles@.len() == old(self).paddles@.len(),
            forall|i: int| 0 <= i < old(self).paddles@.len() ==> {
                &&& (#[trigger] final(self).paddles@[i]).side == old(self).paddles@[i].side
                &&& final(self).paddles@[i].x == old(self).paddles@[i].x
                &&& final(self).paddles@[i].y == paddle_y_after(
                    old(self).paddles@[i].y as int,
                    inputs@[i],
                    dt as int,
                    old(self).arena.height as int,
                )
            },
            ({
                let b = stepped_ball(old(self).ball, old(self).arena, final(self).paddles@, dt as int);
                &&& final(self).ball.x == b.0
                &&& final(self).ball.y == b.1
                &&& final(self).ball.vx == b.2
                &&& final(self).ball.vy == b.3
            }),
            r == exit_event(old(self).ball.x as int, old(self).arena.width as int),
            final(self).score.left == old(self).score.left + (if right_exit(
                old(self).ball.x as int,
                old(self).arena.width as int,
            ) {
                1int
            } else {
                0int
            }),
            final(self).score.right == old(self).score.right + (if !right_exit(
                old(self).ball.x as int,
                old(self).arena.width as int,
            ) && left_exit(old(self).ball.x as int, old(self).arena.width as int) {
                1int
            } else {
                0int
            }),
            final(self).score.left >= old(self).score.left,
            final(self).score.right >= old(self).score.right,
            -VEL_LIMIT <= final(self).ball.vx <= VEL_LIMIT,
            -VEL_LIMIT <= final(self).ball.vy <= VEL_LIMIT,
            old(self).arena.height >= crate::PADDLE_HEIGHT ==> forall|i: int|
                0 <= i < final(self).paddles@.len() ==> paddle_min_y(old(self).arena.height as int)
                    <= (#[trigger] final(self).paddles@[i]).y <= paddle_max_y(
                    old(self).arena.height as int,
                ),
    {
        let arena = self.arena;

        // Move and clamp every paddle.
        let mut moved: Vec<Paddle> = Vec::new();
        let mut idx: usize = 0;
        while idx < self.paddles.len()
            invariant
                self.paddles@.len() == old(self).paddles@.len(),
                forall|j: int| 0 <= j < self.paddles@.len() ==> self.paddles@[j]
                    == old(self).paddles@[j],
                arena == old(self).arena,
                old(self).wf(),
                inputs@.len() == old(self).paddles@.len(),
                0 <= dt <= DT_LIMIT,
                0 <= idx <= self.paddles@.len(),
                moved@.len() == idx,
                forall|j: int| 0 <= j < idx ==> {
                    &&& (#[trigger] moved@[j]).side == old(self).paddles@[j].side
                    &&& moved@[j].x == old(self).paddles@[j].x
                    &&& moved@[j].y == paddle_y_after(
                        old(self).paddles@[j].y as int,
                        inputs@[j],
                        dt as int,
                        arena.height as int,
                    )
                },
                forall|j: int| 0 <= j < idx ==> (#[trigger] moved@[j]).fits(),
            decreases self.paddles@.len() - idx,
        {
            let p = self.paddles[idx];
            let inp = inputs[idx];
            let delta: i64 = match inp {
                PaddleInput::MoveUp => scale_velocity(PADDLE_SPEED, dt),
                PaddleInput::MoveDown => -scale_velocity(PADDLE_SPEED, dt),
                PaddleInput::Stay => 0,
            };
            let ny: i64 = clamp_paddle_y(p.y + delta, arena.height);
            moved.push(Paddle { side: p.side, x: p.x, y: ny });
            idx += 1;
        }
        self.paddles = moved;

        // Test the horizontal boundaries on the pre-integration ball.
        let w_half: i64 = half_of(arena.width);
        let mut ball = self.ball;
        let mut event: Option<ScoreEvent> = None;
        if ball.x + BALL_RADIUS >= w_half {
            self.score.left = self.score.left + 1;
            ball.x = 0;
            ball.y = 0;
            ball.vx = -ball.vx;
            event = Some(ScoreEvent::LeftScored);
        } else if ball.x - BALL_RADIUS <= -w_half {
            self.score.right = self.score.right + 1;
            ball.x = 0;
            ball.y = 0;
            ball.vx = -ball.vx;
            event = Some(ScoreEvent::RightScored);
        }
        let ghost mid_x: int = ball.x as int;
        let ghost mid_y: int = ball.y as int;
        let ghost mid_vx: int = ball.vx as int;
        let ghost mid_vy: int = ball.vy as int;

        // Resolve paddle overlaps one paddle at a time.
        let mut i: usize = 0;
        while i < self.paddles.len()
            invariant
                forall|j: int| 0 <= j < self.paddles@.len() ==> (#[trigger] self.paddles@[j]).fits(),
                0 <= i <= self.paddles@.len(),
                ball.x == mid_x,
                ball.y == mid_y,
                -POS_LIMIT <= ball.x <= POS_LIMIT,
                -POS_LIMIT <= ball.y <= POS_LIMIT,
                -VEL_LIMIT <= ball.vx <= VEL_LIMIT,
                -VEL_LIMIT <= ball.vy <= VEL_LIMIT,
                velocity_after_paddles(self.paddles@, mid_x, mid_y, mid_vx, mid_vy)
                    == velocity_after_paddles_from(
                    self.paddles@,
                    i as int,
                    mid_x,
                    mid_y,
                    ball.vx as int,
                    ball.vy as int,
                ),
            decreases self.paddles@.len() - i,
        {
            let p = self.paddles[i];
            if paddle_collision_check(ball.x, ball.y, p.x, p.y) {
                let offset: i64 = ball.y - p.y;
                ball.vx = -ball.vx;
                ball.vy = offset * BOUNCE_FACTOR;
            }
            i += 1;
        }

        // Reflect off the top and bottom walls.
        let h_half: i64 = half_of(arena.height);
        if ball.y + BALL_RADIUS >= h_half || ball.y - BALL_RADIUS <= -h_half {
            ball.vy = -ball.vy;
        }

        // Integrate.
        ball.x = ball.x + scale_velocity(ball.vx, dt);
        ball.y = ball.y + scale_velocity(ball.vy, dt);
        self.ball = ball;

        event
    }

    /// The one-paddle layout: a single left paddle, the score counted on the
    /// left counter, and the ball served toward the given side.
    pub fn breakout(arena: Arena, serve_right: bool) -> (r: Simulation)
        requires
            arena.wf(),
        ensures
            r.wf(),
            r.arena == arena,
            r.score.left == 0,
            r.score.right == 0,
            r.paddles@.len() == 1,
            r.paddles@[0].side == Side::Left,
            r.paddles@[0].x == left_paddle_start_x(arena.width as int),
            r.paddles@[0].y == 0,
            r.ball.x == 0,
            r.ball.y == 0,
            r.ball.vy == 0,
            r.ball.vx == (if serve_right {
                BALL_VELOCITY as int
            } else {
                -(BALL_VELOCITY as int)
            }),
    {
        let px: i64 = -half_of(arena.width) + PADDLE_HALF_WIDTH + PADDLE_PADDING;
        let mut paddles: Vec<Paddle> = Vec::new();
        paddles.push(Paddle { side: Side::Left, x: px, y: 0 });
        Simulation {
            arena,
            ball: Ball::serve(serve_right),
            paddles,
            score: Score { left: 0, right: 0 },
        }
    }

    /// The one-paddle layout with the opening serve direction drawn at
    /// random, as a fresh match starts.
    pub fn breakout_random(arena: Arena) -> (r: Simulation)
        requires
            arena.wf(),
        ensures
            r.wf(),
            r.arena == arena,
            r.score.left == 0,
            r.score.right == 0,
            r.paddles@.len() == 1,
            r.paddles@[0].side == Side::Left,
            r.paddles@[0].x == left_paddle_start_x(arena.width as int),
            r.paddles@[0].y == 0,
            r.ball.x == 0,
            r.ball.y == 0,
            r.ball.vy == 0,
            r.ball.vx == BALL_VELOCITY || r.ball.vx == -(BALL_VELOCITY as int),
    {
        Simulation::breakout(arena, coin_flip())
    }

    /// The two-paddle layout: mirrored paddles and a ball resting at the
    /// center until it is served.
    pub fn pong(arena: Arena) -> (r: Simulation)
        requires
            arena.wf(),
        ensures
            r.wf(),
            r.arena == arena,
            r.score.left == 0,
            r.score.right == 0,
            r.paddles@.len() == 2,
            r.paddles@[0].side == Side::Left,
            r.paddles@[0].x == left_paddle_start_x(arena.width as int),
            r.paddles@[0].y == 0,
            r.paddles@[1].side == Side::Right,
            r.paddles@[1].x == right_paddle_start_x(arena.width as int),
            r.paddles@[1].y == 0,
            r.ball == (Ball { x: 0, y: 0, vx: 0, vy: 0 }),
    {
        let half_w: i64 = half_of(arena.width);
        let left_x: i64 = -half_w + PADDLE_HALF_WIDTH + PADDLE_PADDING;
        let right_x: i64 = half_w - PADDLE_HALF_WIDTH - PADDLE_PADDING;
        let mut paddles: Vec<Paddle> = Vec::new();
        paddles.push(Paddle { side: Side::Left, x: left_x, y: 0 });
        paddles.push(Paddle { side: Side::Right, x: right_x, y: 0 });
        Simulation {
            arena,
            ball: Ball { x: 0, y: 0, vx: 0, vy: 0 },
            paddles,
            score: Score { left: 0, right: 0 },
        }
    }

    /// Puts the ball back at the center and sends it toward the given side:
    /// the explicit serve trigger between rounds.
    pub fn serve(&mut self, toward_right: bool)
        ensures
            final(self).arena == old(self).arena,
            final(self).paddles@ == old(self).paddles@,
            final(self).score == old(self).score,
            final(self).ball.x == 0,
            final(self).ball.y == 0,
            final(self).ball.vy == 0,
            final(self).ball.vx == (if toward_right {
                BALL_VELOCITY as int
            } else {
                -(BALL_VELOCITY as int)
            }),
            old(self).wf() ==> final(self).wf(),
    {
        self.ball = Ball::serve(toward_right);
    }
}

} // verus!
