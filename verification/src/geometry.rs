//! Pixel geometry: points, axis-aligned rectangles and colours.
//!
//! Coordinates are `i32`, sizes are `u32`. Every operation is total: a sum or
//! a difference that leaves the `i32` range is pinned to the nearest bound,
//! and containment is decided over the mathematical integers.

use vstd::prelude::*;

verus! {

/// The `i32` nearest to `v`.
pub open spec fn clamp_i32(v: int) -> int {
    if v < i32::MIN {
        i32::MIN as int
    } else if v > i32::MAX {
        i32::MAX as int
    } else {
        v
    }
}

/// The `u32` nearest to the non-negative `v`.
pub open spec fn clamp_u32(v: int) -> int {
    if v > u32::MAX {
        u32::MAX as int
    } else if v < 0 {
        0
    } else {
        v
    }
}

/// Pins a wide intermediate result to the `i32` range.
pub fn saturate_i32(v: i64) -> (r: i32)
    ensures
        r == clamp_i32(v as int),
{
    if v < i32::MIN as i64 {
        i32::MIN
    } else if v > i32::MAX as i64 {
        i32::MAX
    } else {
        v as i32
    }
}

/// A pixel position; `x` grows to the right and `y` grows downwards.
#[derive(Clone, Copy, Debug, PartialEq, Eq, Structural)]
pub struct Point {
    pub x: i32,
    pub y: i32,
}

impl Point {
    pub fn new(x: i32, y: i32) -> (p: Point)
        ensures
            p == (Point { x, y }),
    {
        Point { x, y }
    }

    /// `self` as seen from `origin`, each coordinate pinned to the `i32` range.
    pub open spec fn spec_relative_to(self, origin: Point) -> Point {
        Point { x: clamp_i32(self.x - origin.x) as i32, y: clamp_i32(self.y - origin.y) as i32 }
    }

    /// Expresses the point in the coordinate space whose origin is `origin`.
    pub fn relative_to(self, origin: Point) -> (p: Point)
        ensures
            p == self.spec_relative_to(origin),
    {
        Point {
            x: saturate_i32(self.x as i64 - origin.x as i64),
            y: saturate_i32(self.y as i64 - origin.y as i64),
        }
    }
}

impl Default for Point {
    fn default() -> (p: Point)
        ensures
            p == (Point { x: 0, y: 0 }),
    {
        Point { x: 0, y: 0 }
    }
}

/// An axis-aligned rectangle; `(x, y)` is its top-left corner.
#[derive(Clone, Copy, Debug, PartialEq, Eq, Structural)]
pub struct Rect {
    pub x: i32,
    pub y: i32,
    pub width: u32,
    pub height: u32,
}

impl Rect {
    pub fn new(x: i32, y: i32, width: u32, height: u32) -> (r: Rect)
        ensures
            r == (Rect { x, y, width, height }),
    {
        Rect { x, y, width, height }
    }

    /// The top-left corner.
    pub open spec fn origin(self) -> Point {
        Point { x: self.x, y: self.y }
    }

    /// Whether `p` lies inside: the left and top edges belong to the
    /// rectangle, the right and bottom edges do not.
    pub open spec fn spec_contains(self, p: Point) -> bool {
        &&& self.x <= p.x < self.x + self.width
        &&& self.y <= p.y < self.y + self.height
    }

    /// The top-left corner.
    pub fn point(&self) -> (p: Point)
        ensures
            p == self.origin(),
    {
        Point { x: self.x, y: self.y }
    }

    /// Hit test.
    pub fn contains(&self, p: Point) -> (inside: bool)
        ensures
            inside == self.spec_contains(p),
    {
        let px: i64 = p.x as i64;
        let py: i64 = p.y as i64;
        let left: i64 = self.x as i64;
        let top: i64 = self.y as i64;
        left <= px && px < left + self.width as i64 && top <= py && py < top + self.height as i64
    }
}

impl Default for Rect {
    fn default() -> (r: Rect)
        ensures
            r == (Rect { x: 0, y: 0, width: 0, height: 0 }),
    {
        Rect { x: 0, y: 0, width: 0, height: 0 }
    }
}

/// A colour, packed as `0xAARRGGBB`.
#[derive(Clone, Copy, Debug, PartialEq, Eq, Structural)]
pub struct Color {
    pub data: u32,
}

impl Color {
    /// The packed value of an opaque colour.
    pub open spec fn spec_rgb(r: u8, g: u8, b: u8) -> u32 {
        (0xFF00_0000 + r * 0x1_0000 + g * 0x100 + b) as u32
    }

    /// An opaque colour from its red, green and blue parts.
    pub fn rgb(r: u8, g: u8, b: u8) -> (c: Color)
        ensures
            c.data == Self::spec_rgb(r, g, b),
    {
        Color { data: 0xFF00_0000u32 + (r as u32) * 0x1_0000u32 + (g as u32) * 0x100u32 + b as u32 }
    }
}

} // verus!
