//! The rectangular playable region and the static walls around it.

use vstd::prelude::*;
use crate::geom::{half_of, DIM_LIMIT};
use crate::WALL_THICKNESS;

verus! {

/// The playable rectangle `[-width/2, width/2] x [-height/2, height/2]`,
/// with the thickness of the walls drawn just outside it.  Dimensions are in
/// arena units and never change once the arena is built.
#[derive(Clone, Copy, Debug, PartialEq, Eq, Structural)]
pub struct Arena {
    pub width: i64,
    pub height: i64,
    pub wall_thickness: i64,
}

impl Arena {
    /// Both dimensions are positive and every dimension is small enough for
    /// the step arithmetic.
    pub open spec fn wf(self) -> bool {
        &&& 0 < self.width <= DIM_LIMIT
        &&& 0 < self.height <= DIM_LIMIT
        &&& 0 <= self.wall_thickness <= DIM_LIMIT
    }

    /// Builds an arena, rejecting dimensions that are zero or negative (or
    /// too large for the step arithmetic) rather than simulating with them.
    pub fn new(width: i64, height: i64, wall_thickness: i64) -> (r: Option<Arena>)
        ensures
            r is Some <==> {
                &&& 0 < width <= DIM_LIMIT
                &&& 0 < height <= DIM_LIMIT
                &&& 0 <= wall_thickness <= DIM_LIMIT
            },
            r is Some ==> r->Some_0 == (Arena { width, height, wall_thickness }),
            r is Some ==> r->Some_0.wf(),
    {
        if 0 < width && width <= DIM_LIMIT && 0 < height && height <= DIM_LIMIT && 0 <= wall_thickness
            && wall_thickness <= DIM_LIMIT {
            Some(Arena { width, height, wall_thickness })
        } else {
            None
        }
    }
}

/// Width of the one-paddle arena carved out of a window of width `win_w`:
/// six tenths of what the side walls leave, rounded toward zero.
pub open spec fn breakout_arena_width(win_w: int) -> int {
    ((win_w - 2 * WALL_THICKNESS) * 6) / 10
}

/// Height of the one-paddle arena carved out of a window of height `win_h`:
/// nine tenths of what the top and bottom walls leave.
pub open spec fn breakout_arena_height(win_h: int) -> int {
    ((win_h - 2 * WALL_THICKNESS) * 9) / 10
}

/// Width of the two-paddle arena before aspect correction: nine tenths of
/// what the side walls leave.
pub open spec fn pong_pre_width(win_w: int) -> int {
    ((win_w - 2 * WALL_THICKNESS) * 9) / 10
}

/// Height of the two-paddle arena before aspect correction: eight tenths of
/// what the top and bottom walls leave.
pub open spec fn pong_pre_height(win_h: int) -> int {
    ((win_h - 2 * WALL_THICKNESS) * 8) / 10
}

/// Width of the two-paddle arena: the uncorrected width, shrunk to twice the
/// height when it is wider than that.
pub open spec fn pong_arena_width(win_w: int, win_h: int) -> int {
    if pong_pre_width(win_w) > 2 * pong_pre_height(win_h) {
        2 * pong_pre_height(win_h)
    } else {
        pong_pre_width(win_w)
    }
}

/// Height of the two-paddle arena: the uncorrected height, shrunk to half
/// the width when the width is not wider than twice the height.
pub open spec fn pong_arena_height(win_w: int, win_h: int) -> int {
    if pong_pre_width(win_w) > 2 * pong_pre_height(win_h) {
        pong_pre_height(win_h)
    } else {
        pong_pre_width(win_w) / 2
    }
}

impl Arena {
    /// The one-paddle arena for a window of the given size, or nothing when
    /// the window is too small to leave a playable rectangle.
    pub fn breakout_from_window(win_w: i64, win_h: i64) -> (r: Option<Arena>)
        requires
            0 <= win_w <= DIM_LIMIT,
            0 <= win_h <= DIM_LIMIT,
        ensures
            r is Some <==> 0 < breakout_arena_width(win_w as int) && 0 < breakout_arena_height(
                win_h as int,
            ),
            r is Some ==> {
                &&& r->Some_0.width == breakout_arena_width(win_w as int)
                &&& r->Some_0.height == breakout_arena_height(win_h as int)
                &&& r->Some_0.wall_thickness == WALL_THICKNESS
                &&& r->Some_0.wf()
            },
    {
        if win_w <= 2 * WALL_THICKNESS || win_h <= 2 * WALL_THICKNESS {
            return None;
        }
        let aw: i64 = ((((win_w - 2 * WALL_THICKNESS) as u64) * 6) / 10) as i64;
        let ah: i64 = ((((win_h - 2 * WALL_THICKNESS) as u64) * 9) / 10) as i64;
        Arena::new(aw, ah, WALL_THICKNESS)
    }

    /// The two-paddle arena for a window of the given size, aspect-corrected
    /// toward two-to-one, or nothing when the window is too small.
    pub fn pong_from_window(win_w: i64, win_h: i64) -> (r: Option<Arena>)
        requires
            0 <= win_w <= DIM_LIMIT,
            0 <= win_h <= DIM_LIMIT,
        ensures
            r is Some <==> 0 < pong_arena_width(win_w as int, win_h as int) && 0
                < pong_arena_height(win_w as int, win_h as int),
            r is Some ==> {
                &&& r->Some_0.width == pong_arena_width(win_w as int, win_h as int)
                &&& r->Some_0.height == pong_arena_height(win_w as int, win_h as int)
                &&& r->Some_0.wall_thickness == WALL_THICKNESS
                &&& r->Some_0.wf()
            },
    {
        if win_w <= 2 * WALL_THICKNESS || win_h <= 2 * WALL_THICKNESS {
            return None;
        }
        let pre_w: i64 = ((((win_w - 2 * WALL_THICKNESS) as u64) * 9) / 10) as i64;
        let pre_h: i64 = ((((win_h - 2 * WALL_THICKNESS) as u64) * 8) / 10) as i64;
        let aw: i64;
        let ah: i64;
        if pre_w > 2 * pre_h {
            aw = 2 * pre_h;
            ah = pre_h;
        } else {
            aw = pre_w;
            ah = ((pre_w as u64) / 2) as i64;
        }
        Arena::new(aw, ah, WALL_THICKNESS)
    }
}

/// One static wall rectangle, by its center and its full size.
#[derive(Clone, Copy, Debug, PartialEq, Eq, Structural)]
pub struct WallRect {
    pub x: i64,
    pub y: i64,
    pub width: i64,
    pub height: i64,
}

/// The four static walls around an arena.
#[derive(Clone, Copy, Debug, PartialEq, Eq, Structural)]
pub struct Walls {
    pub top: WallRect,
    pub bottom: WallRect,
    pub left: WallRect,
    pub right: WallRect,
}

impl Arena {
    /// The four wall rectangles, each centered half a thickness outside the
    /// playable rectangle and spanning the matching arena dimension.
    pub fn walls(&self) -> (r: Walls)
        requires
            self.wf(),
        ensures
            r.top.x == 0 && r.top.y == self.height as int / 2 + self.wall_thickness as int / 2,
            r.top.width == self.width && r.top.height == self.wall_thickness,
            r.bottom.x == 0 && r.bottom.y == -(self.height as int / 2) - self.wall_thickness as int
                / 2,
            r.bottom.width == self.width && r.bottom.height == self.wall_thickness,
            r.left.x == -(self.width as int / 2) - self.wall_thickness as int / 2 && r.left.y == 0,
            r.left.width == self.wall_thickness && r.left.height == self.height,
            r.right.x == self.width as int / 2 + self.wall_thickness as int / 2 && r.right.y == 0,
            r.right.width == self.wall_thickness && r.right.height == self.height,
    {
        let half_w: i64 = half_of(self.width);
        let half_h: i64 = half_of(self.height);
        let half_t: i64 = half_of(self.wall_thickness);
        Walls {
            top: WallRect { x: 0, y: half_h + half_t, width: self.width, height: self.wall_thickness },
            bottom: WallRect {
                x: 0,
                y: -half_h - half_t,
                width: self.width,
                height: self.wall_thickness,
            },
            left: WallRect {
                x: -half_w - half_t,
                y: 0,
                width: self.wall_thickness,
                height: self.height,
            },
            right: WallRect {
                x: half_w + half_t,
                y: 0,
                width: self.wall_thickness,
                height: self.height,
            },
        }
    }
}

} // verus!
