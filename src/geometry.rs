//! Integer pixel geometry: points, axis-aligned rectangles, and the quads a
//! widget paints.

use vstd::prelude::*;

verus! {

/// A position in whole pixels.
#[derive(Clone, Copy, Debug, PartialEq, Eq, Structural)]
pub struct Point {
    pub x: i32,
    pub y: i32,
}

/// An axis-aligned rectangle in whole pixels: its top-left corner and its size.
#[derive(Clone, Copy, Debug, PartialEq, Eq, Structural)]
pub struct Rectangle {
    pub x: i32,
    pub y: i32,
    pub width: u32,
    pub height: u32,
}

/// The cursor position used for hit-testing: the cursor where there is one,
/// the origin where there is none.
pub open spec fn spec_cursor_or_origin(cursor: Option<Point>) -> Point {
    match cursor {
        Some(p) => p,
        None => Point { x: 0, y: 0 },
    }
}

pub fn cursor_or_origin(cursor: Option<Point>) -> (r: Point)
    ensures
        r == spec_cursor_or_origin(cursor),
{
    match cursor {
        Some(p) => p,
        None => Point { x: 0, y: 0 },
    }
}

/// `v` limited to the range of `i32`.
pub open spec fn clamp_i32(v: int) -> i32 {
    if v < i32::MIN {
        i32::MIN
    } else if v > i32::MAX {
        i32::MAX
    } else {
        v as i32
    }
}

impl Rectangle {
    /// Whether `p` lies in the rectangle: the left and top edges are inside,
    /// the right and bottom edges are not.
    pub open spec fn spec_contains(self, p: Point) -> bool {
        &&& self.x <= p.x
        &&& p.x < self.x + self.width
        &&& self.y <= p.y
        &&& p.y < self.y + self.height
    }

    pub fn contains(&self, p: Point) -> (r: bool)
        ensures
            r == self.spec_contains(p),
    {
        let left = self.x as i64;
        let top = self.y as i64;
        left <= p.x as i64 && (p.x as i64) < left + self.width as i64 && top <= p.y as i64
            && (p.y as i64) < top + self.height as i64
    }

    /// The x-coordinate of the right edge.
    pub open spec fn spec_right(self) -> int {
        self.x + self.width
    }

    pub fn right(&self) -> (r: i64)
        ensures
            r == self.spec_right(),
    {
        self.x as i64 + self.width as i64
    }

    /// The same rectangle with its left edge moved right by `left` and its
    /// width reduced by `right`, neither beyond what the integer types hold.
    pub open spec fn spec_inset(self, left: u16, right: u16) -> Rectangle {
        Rectangle {
            x: clamp_i32(self.x + left),
            y: self.y,
            width: if self.width >= right {
                (self.width - right) as u32
            } else {
                0
            },
            height: self.height,
        }
    }

    pub fn inset(&self, left: u16, right: u16) -> (r: Rectangle)
        ensures
            r == self.spec_inset(left, right),
    {
        let moved = self.x as i64 + left as i64;
        let x: i32 = if moved > i32::MAX as i64 {
            i32::MAX
        } else {
            moved as i32
        };
        Rectangle {
            x,
            y: self.y,
            width: self.width.saturating_sub(right as u32),
            height: self.height,
        }
    }
}

/// A filled, bordered rectangle to paint.
#[derive(Clone, Copy, Debug, PartialEq, Eq, Structural)]
pub struct Quad {
    pub bounds: Rectangle,
    pub background: crate::color::Rgba,
    pub border_width: u16,
    pub border_color: crate::color::Rgba,
    pub border_radius: u16,
}

/// The mouse cursor a widget asks for.
#[derive(Clone, Copy, Debug, PartialEq, Eq, Structural)]
pub enum Interaction {
    /// The platform's default arrow.
    Idle,
    /// The pointing hand shown over something that can be clicked.
    Pointer,
}

} // verus!
