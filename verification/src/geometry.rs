use vstd::prelude::*;
use crate::num::{fits, COORD_LIMIT};

verus! {

/// A 2D point or extent in whole pixels.
#[derive(Clone, Copy, Debug, PartialEq, Eq, Structural)]
pub struct Vec2 {
    pub x: i64,
    pub y: i64,
}

impl Vec2 {
    /// Both components inside the engine's coordinate range.
    pub open spec fn wf(self) -> bool {
        fits(self.x as int) && fits(self.y as int)
    }

    /// Both components a valid extent: non-negative and in range.
    pub open spec fn wf_extent(self) -> bool {
        0 <= self.x <= COORD_LIMIT as int && 0 <= self.y <= COORD_LIMIT as int
    }

    pub fn new(x: i64, y: i64) -> (r: Vec2)
        ensures
            r.x == x,
            r.y == y,
    {
        Vec2 { x, y }
    }
}

/// A concrete on-screen rectangle: top-left corner and extent.
#[derive(Clone, Copy, Debug, PartialEq, Eq, Structural)]
pub struct UiRect {
    pub position: Vec2,
    pub size: Vec2,
}

impl UiRect {
    pub open spec fn wf(self) -> bool {
        self.position.wf() && self.size.wf_extent()
    }

    pub fn new(position: Vec2, size: Vec2) -> (r: UiRect)
        ensures
            r.position == position,
            r.size == size,
    {
        UiRect { position, size }
    }
}

/// Four independent inset values, used for padding. Always non-negative;
/// where an inset exceeds the element's final size, the engine clamps the
/// inner rectangle to an empty extent instead of erroring.
#[derive(Clone, Copy, Debug, PartialEq, Eq, Structural)]
pub struct Sides {
    pub top: i64,
    pub bottom: i64,
    pub left: i64,
    pub right: i64,
}

impl Sides {
    pub open spec fn wf(self) -> bool {
        &&& 0 <= self.top <= COORD_LIMIT as int
        &&& 0 <= self.bottom <= COORD_LIMIT as int
        &&& 0 <= self.left <= COORD_LIMIT as int
        &&& 0 <= self.right <= COORD_LIMIT as int
    }

    /// The same inset on all four sides.
    pub fn all(v: i64) -> (r: Sides)
        ensures
            r.top == v,
            r.bottom == v,
            r.left == v,
            r.right == v,
    {
        Sides { top: v, bottom: v, left: v, right: v }
    }

    /// No inset at all.
    pub fn none() -> (r: Sides)
        ensures
            r.top == 0,
            r.bottom == 0,
            r.left == 0,
            r.right == 0,
    {
        Sides { top: 0, bottom: 0, left: 0, right: 0 }
    }
}

/// Four independently-settable corner values, used for corner radii and for
/// per-corner gradient colors.
#[derive(Clone, Copy, Debug, PartialEq, Eq)]
pub struct Corners<T> {
    pub top_left: T,
    pub top_right: T,
    pub bottom_left: T,
    pub bottom_right: T,
}

impl<T: Copy> Corners<T> {
    /// The same value in all four corners.
    pub fn all(v: T) -> (r: Corners<T>)
        ensures
            r.top_left == v,
            r.top_right == v,
            r.bottom_left == v,
            r.bottom_right == v,
    {
        Corners { top_left: v, top_right: v, bottom_left: v, bottom_right: v }
    }
}

/// Corner radii in range.
pub open spec fn corners_wf(c: Corners<i64>) -> bool {
    &&& 0 <= c.top_left <= COORD_LIMIT as int
    &&& 0 <= c.top_right <= COORD_LIMIT as int
    &&& 0 <= c.bottom_left <= COORD_LIMIT as int
    &&& 0 <= c.bottom_right <= COORD_LIMIT as int
}

/// The largest of the four corner values.
pub open spec fn corners_max_spec(c: Corners<i64>) -> int {
    let a = if c.top_left >= c.top_right {
        c.top_left as int
    } else {
        c.top_right as int
    };
    let b = if c.bottom_left >= c.bottom_right {
        c.bottom_left as int
    } else {
        c.bottom_right as int
    };
    if a >= b {
        a
    } else {
        b
    }
}

/// The largest of the four corner values.
pub fn corners_max(c: &Corners<i64>) -> (r: i64)
    ensures
        r == corners_max_spec(*c),
{
    let a = if c.top_left >= c.top_right {
        c.top_left
    } else {
        c.top_right
    };
    let b = if c.bottom_left >= c.bottom_right {
        c.bottom_left
    } else {
        c.bottom_right
    };
    if a >= b {
        a
    } else {
        b
    }
}

} // verus!
