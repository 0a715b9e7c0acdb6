use paddle_sim::arena::Arena;
use paddle_sim::geom::{clamp_paddle_y, paddle_collision_check, scale_velocity};

#[test]
fn arena_rejects_empty_dimensions() {
    assert!(Arena::new(0, 300, 4).is_none());
    assert!(Arena::new(400, 0, 4).is_none());
    assert!(Arena::new(-400, 300, 4).is_none());
    assert!(Arena::new(400, -300, 4).is_none());
    assert!(Arena::new(400, 300, -1).is_none());
    let a = Arena::new(400, 300, 4).unwrap();
    assert_eq!((a.width, a.height, a.wall_thickness), (400, 300, 4));
    let bare = Arena::new(400, 300, 0).unwrap();
    assert_eq!(bare.wall_thickness, 0);
}

#[test]
fn breakout_window_formula() {
    // Six tenths of the width and nine tenths of the height that the walls
    // leave over.
    let a = Arena::breakout_from_window(800, 600).unwrap();
    assert_eq!((a.width, a.height, a.wall_thickness), (475, 532, 4));
    assert!(Arena::breakout_from_window(8, 600).is_none());
    assert!(Arena::breakout_from_window(800, 8).is_none());
    assert!(Arena::breakout_from_window(0, 0).is_none());
}

#[test]
fn pong_window_narrows_to_the_aspect() {
    // A squarish window keeps its width and halves it for the height.
    let a = Arena::pong_from_window(800, 600).unwrap();
    assert_eq!((a.width, a.height), (712, 356));
    // A very wide window keeps its height and doubles it for the width.
    let wide = Arena::pong_from_window(2000, 400).unwrap();
    assert_eq!((wide.width, wide.height), (626, 313));
    assert!(Arena::pong_from_window(8, 400).is_none());
}

#[test]
fn walls_sit_just_outside_the_arena() {
    let a = Arena::new(400, 300, 4).unwrap();
    let w = a.walls();
    assert_eq!((w.top.x, w.top.y, w.top.width, w.top.height), (0, 152, 400, 4));
    assert_eq!((w.bottom.x, w.bottom.y, w.bottom.width, w.bottom.height), (0, -152, 400, 4));
    assert_eq!((w.left.x, w.left.y, w.left.width, w.left.height), (-202, 0, 4, 300));
    assert_eq!((w.right.x, w.right.y, w.right.width, w.right.height), (202, 0, 4, 300));
}

#[test]
fn collision_check_matches_closed_boxes() {
    // Touching edges count.
    assert!(paddle_collision_check(0, 0, 12, 0));
    assert!(paddle_collision_check(0, 0, -12, 0));
    assert!(paddle_collision_check(0, 32, 0, 0));
    assert!(!paddle_collision_check(0, 33, 0, 0));
    assert!(!paddle_collision_check(13, 0, 0, 0));
    assert!(paddle_collision_check(-185, 15, -190, 10));
}

#[test]
fn velocity_scaling_truncates_toward_zero() {
    assert_eq!(scale_velocity(50, 1000), 50);
    assert_eq!(scale_velocity(60, 100), 6);
    assert_eq!(scale_velocity(-60, 100), -6);
    assert_eq!(scale_velocity(7, 100), 0);
    assert_eq!(scale_velocity(-7, 100), 0);
    assert_eq!(scale_velocity(0, 1000000), 0);
    assert_eq!(scale_velocity(199, 500), 99);
}

#[test]
fn paddle_clamp_respects_both_bounds() {
    assert_eq!(clamp_paddle_y(0, 300), 0);
    assert_eq!(clamp_paddle_y(125, 300), 125);
    assert_eq!(clamp_paddle_y(126, 300), 125);
    assert_eq!(clamp_paddle_y(-125, 300), -125);
    assert_eq!(clamp_paddle_y(-126, 300), -125);
    assert_eq!(clamp_paddle_y(1000, 300), 125);
    assert_eq!(clamp_paddle_y(-1000, 300), -125);
    // An arena shorter than a paddle ends at the lower bound.
    assert_eq!(clamp_paddle_y(0, 40), -(40 / 2) + 25);
}
