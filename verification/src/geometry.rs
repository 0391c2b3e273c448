//! Points, sizes and rectangles on the pixel grid.
//!
//! Coordinates are `i32` and extents are `u32`. Layout arithmetic never wraps:
//! a coordinate that would leave the `i32` range stays at the end of the range,
//! and an extent that would fall below zero stays at zero.

use vstd::prelude::*;

verus! {

/// The coordinate nearest to `v`.
pub open spec fn saturate(v: int) -> i32 {
    if v < i32::MIN {
        i32::MIN
    } else if v > i32::MAX {
        i32::MAX
    } else {
        v as i32
    }
}

/// The extent `a - b`, or zero where `b` is the larger.
pub open spec fn shrink(a: int, b: int) -> int {
    if a >= b {
        a - b
    } else {
        0
    }
}

/// The coordinate nearest to `v`.
pub fn saturate_i64(v: i64) -> (c: i32)
    ensures
        c == saturate(v as int),
{
    if v < i32::MIN as i64 {
        i32::MIN
    } else if v > i32::MAX as i64 {
        i32::MAX
    } else {
        v as i32
    }
}

/// A position on the pixel grid.
#[derive(Clone, Copy, Debug, PartialEq, Eq, Structural)]
pub struct Point {
    pub x: i32,
    pub y: i32,
}

impl Point {
    pub fn new(x: i32, y: i32) -> (point: Point)
        ensures
            point == (Point { x, y }),
    {
        Point { x, y }
    }

    /// This point moved by `dx` and `dy`.
    pub open spec fn moved(self, dx: int, dy: int) -> Point {
        Point { x: saturate(self.x + dx), y: saturate(self.y + dy) }
    }

    /// This point moved by `dx` and `dy`.
    pub fn offset(self, dx: i64, dy: i64) -> (point: Point)
        ensures
            point == self.moved(dx as int, dy as int),
    {
        Point { x: shifted(self.x, dx), y: shifted(self.y, dy) }
    }
}

/// The coordinate nearest to `base + delta`.
pub fn shifted(base: i32, delta: i64) -> (c: i32)
    ensures
        c == saturate(base + delta),
{
    match (base as i64).checked_add(delta) {
        Some(sum) => saturate_i64(sum),
        None => if delta > 0 {
            i32::MAX
        } else {
            i32::MIN
        },
    }
}

/// The extent of an area in pixels.
#[derive(Clone, Copy, Debug, PartialEq, Eq, Structural)]
pub struct Size {
    pub width: u32,
    pub height: u32,
}

impl Size {
    pub fn new(width: u32, height: u32) -> (size: Size)
        ensures
            size == (Size { width, height }),
    {
        Size { width, height }
    }
}

/// An axis-aligned area, given by its top left corner and its extent.
#[derive(Clone, Copy, Debug, PartialEq, Eq, Structural)]
pub struct Rectangle {
    pub top_left: Point,
    pub size: Size,
}

impl Rectangle {
    pub fn new(top_left: Point, size: Size) -> (area: Rectangle)
        ensures
            area == (Rectangle { top_left, size }),
    {
        Rectangle { top_left, size }
    }

    /// Whether `point` lies on one of the pixels of this area. An area of no
    /// width or no height has no pixel.
    pub open spec fn covers(self, point: Point) -> bool {
        &&& self.top_left.x <= point.x < self.top_left.x + self.size.width
        &&& self.top_left.y <= point.y < self.top_left.y + self.size.height
    }

    /// Whether `point` lies on one of the pixels of this area.
    pub fn contains(&self, point: Point) -> (inside: bool)
        ensures
            inside == self.covers(point),
    {
        let x: i64 = point.x as i64;
        let y: i64 = point.y as i64;
        let left: i64 = self.top_left.x as i64;
        let top: i64 = self.top_left.y as i64;
        left <= x && x < left + self.size.width as i64 && top <= y && y < top
            + self.size.height as i64
    }
}

} // verus!
