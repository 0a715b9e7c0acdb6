use paddle_sim::arena::Arena;
use paddle_sim::sim::{Ball, Paddle, PaddleInput, ScoreEvent, Side, Simulation};

fn arena_400_by_300() -> Arena {
    Arena::new(400, 300, 4).unwrap()
}

#[test]
fn right_exit_scores_and_restarts() {
    let mut s = Simulation::breakout(arena_400_by_300(), true);
    s.ball = Ball { x: 195, y: 0, vx: 50, vy: 0 };
    let inputs = vec![PaddleInput::Stay];
    let ev = s.step(1000, &inputs);
    assert_eq!(ev, Some(ScoreEvent::LeftScored));
    assert_eq!(s.score.left, 1);
    assert_eq!(s.score.right, 0);
    // The ball restarts at the center with its horizontal velocity flipped,
    // then integrates one full second from there.
    assert_eq!((s.ball.vx, s.ball.vy), (-50, 0));
    assert_eq!((s.ball.x, s.ball.y), (-50, 0));
}

#[test]
fn left_exit_scores_for_the_right() {
    let mut s = Simulation::pong(arena_400_by_300());
    s.ball = Ball { x: -195, y: 0, vx: -50, vy: 0 };
    let inputs = vec![PaddleInput::Stay, PaddleInput::Stay];
    let ev = s.step(1000, &inputs);
    assert_eq!(ev, Some(ScoreEvent::RightScored));
    assert_eq!(s.score.left, 0);
    assert_eq!(s.score.right, 1);
    assert_eq!((s.ball.vx, s.ball.vy), (50, 0));
    assert_eq!((s.ball.x, s.ball.y), (50, 0));
}

#[test]
fn paddle_bounce_sets_deflection() {
    let mut s = Simulation::breakout(arena_400_by_300(), true);
    s.paddles = vec![Paddle { side: Side::Left, x: -190, y: 10 }];
    s.ball = Ball { x: -185, y: 15, vx: -100, vy: 0 };
    let inputs = vec![PaddleInput::Stay];
    let ev = s.step(0, &inputs);
    assert_eq!(ev, None);
    // Strike offset 5 scaled by the bounce factor.
    assert_eq!((s.ball.vx, s.ball.vy), (100, 25));
    assert_eq!((s.ball.x, s.ball.y), (-185, 15));
    // Paddle contact never scores.
    assert_eq!((s.score.left, s.score.right), (0, 0));
}

#[test]
fn wall_bounce_flips_vertical_velocity() {
    let mut s = Simulation::breakout(arena_400_by_300(), true);
    s.ball = Ball { x: 0, y: 148, vx: 0, vy: 60 };
    let inputs = vec![PaddleInput::Stay];
    let ev = s.step(100, &inputs);
    assert_eq!(ev, None);
    // The flip happens before integration, so the ball moves back down.
    assert_eq!((s.ball.vx, s.ball.vy), (0, -60));
    assert_eq!((s.ball.x, s.ball.y), (0, 142));
}

#[test]
fn zero_delta_step_changes_nothing() {
    let mut s = Simulation::pong(arena_400_by_300());
    let inputs = vec![PaddleInput::Stay, PaddleInput::Stay];
    for _ in 0..3 {
        let ev = s.step(0, &inputs);
        assert_eq!(ev, None);
        assert_eq!((s.ball.x, s.ball.y, s.ball.vx, s.ball.vy), (0, 0, 0, 0));
        assert_eq!((s.score.left, s.score.right), (0, 0));
        assert_eq!(s.paddles[0], Paddle { side: Side::Left, x: -185, y: 0 });
        assert_eq!(s.paddles[1], Paddle { side: Side::Right, x: 185, y: 0 });
    }
}

#[test]
fn paddles_move_and_clamp() {
    let mut s = Simulation::pong(arena_400_by_300());
    let inputs = vec![PaddleInput::MoveUp, PaddleInput::MoveDown];
    // One full second moves a paddle 200 units, but the clamp stops it at
    // half the height minus half a paddle.
    s.step(1000, &inputs);
    assert_eq!(s.paddles[0].y, 125);
    assert_eq!(s.paddles[1].y, -125);
    // A short step moves an already-clamped paddle no further.
    s.step(50, &inputs);
    assert_eq!(s.paddles[0].y, 125);
    assert_eq!(s.paddles[1].y, -125);
    // Moving back down is unhindered: a tenth of a second is 20 units.
    let back = vec![PaddleInput::MoveDown, PaddleInput::MoveUp];
    s.step(100, &back);
    assert_eq!(s.paddles[0].y, 105);
    assert_eq!(s.paddles[1].y, -105);
}

#[test]
fn overlapping_two_paddles_flips_twice() {
    let mut s = Simulation::pong(arena_400_by_300());
    s.paddles = vec![
        Paddle { side: Side::Left, x: 0, y: 0 },
        Paddle { side: Side::Right, x: 0, y: 10 },
    ];
    s.ball = Ball { x: 0, y: 5, vx: 80, vy: 0 };
    let inputs = vec![PaddleInput::Stay, PaddleInput::Stay];
    let ev = s.step(0, &inputs);
    assert_eq!(ev, None);
    // Each overlapping paddle flips independently: two flips cancel, and the
    // vertical deflection comes from the last paddle resolved.
    assert_eq!((s.ball.vx, s.ball.vy), (80, -25));
}

#[test]
fn corner_case_scores_before_bouncing() {
    // The ball reaches the right boundary and a vertical boundary in the
    // same step: the scoring reset runs first, so the wall test sees the
    // recentered ball and does not flip it.
    let mut s = Simulation::breakout(arena_400_by_300(), true);
    s.ball = Ball { x: 196, y: 148, vx: 40, vy: 30 };
    let inputs = vec![PaddleInput::Stay];
    let ev = s.step(0, &inputs);
    assert_eq!(ev, Some(ScoreEvent::LeftScored));
    assert_eq!(s.score.left, 1);
    assert_eq!((s.ball.x, s.ball.y), (0, 0));
    assert_eq!((s.ball.vx, s.ball.vy), (-40, 30));
}

#[test]
fn serve_recenters_and_directs_the_ball() {
    let mut s = Simulation::pong(arena_400_by_300());
    s.ball = Ball { x: 31, y: -17, vx: 5, vy: 9 };
    s.serve(false);
    assert_eq!((s.ball.x, s.ball.y), (0, 0));
    assert_eq!((s.ball.vx, s.ball.vy), (-200, 0));
    s.serve(true);
    assert_eq!((s.ball.vx, s.ball.vy), (200, 0));
}

#[test]
fn ball_serve_builds_the_served_ball() {
    let b = Ball::serve(true);
    assert_eq!((b.x, b.y, b.vx, b.vy), (0, 0, 200, 0));
    let b = Ball::serve(false);
    assert_eq!((b.x, b.y, b.vx, b.vy), (0, 0, -200, 0));
}

#[test]
fn random_start_serves_at_full_speed() {
    let s = Simulation::breakout_random(arena_400_by_300());
    assert_eq!((s.ball.x, s.ball.y, s.ball.vy), (0, 0, 0));
    assert!(s.ball.vx == 200 || s.ball.vx == -200);
    assert_eq!(s.paddles.len(), 1);
    assert_eq!(s.paddles[0], Paddle { side: Side::Left, x: -185, y: 0 });
    assert_eq!((s.score.left, s.score.right), (0, 0));
}

#[test]
fn scores_only_grow_over_many_steps() {
    let mut s = Simulation::breakout(arena_400_by_300(), true);
    s.ball = Ball { x: 190, y: 40, vx: 120, vy: -35 };
    let inputs = vec![PaddleInput::MoveUp];
    let mut last = (0u64, 0u64);
    for _ in 0..50 {
        s.step(250, &inputs);
        let now = (s.score.left, s.score.right);
        assert!(now.0 >= last.0 && now.1 >= last.1);
        // The paddle stays in its clamped range whatever happens.
        assert!(s.paddles[0].y >= -125 && s.paddles[0].y <= 125);
        last = now;
    }
}
