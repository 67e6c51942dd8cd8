//! Sizes, points, rectangles and layout constraints in whole units.

use vstd::prelude::*;

verus! {

/// Largest value a 32-bit dimension can hold.
pub open spec fn saturate(value: int) -> int {
    if value > u32::MAX as int { u32::MAX as int } else { value }
}

/// A width and height in whole device-independent pixels.
#[derive(Debug, Clone, Copy, PartialEq, Eq, Structural)]
pub struct Size {
    /// Width.
    pub w: u32,
    /// Height.
    pub h: u32,
}

impl Size {
    /// Creates a size.
    pub fn new(w: u32, h: u32) -> (s: Size)
        ensures s.w == w, s.h == h,
    {
        Size { w, h }
    }

    /// The empty size.
    pub fn zero() -> (s: Size)
        ensures s.w == 0, s.h == 0,
    {
        Size { w: 0, h: 0 }
    }
}

/// A position in whole device-independent pixels.
#[derive(Debug, Clone, Copy, PartialEq, Eq, Structural)]
pub struct Point {
    /// Horizontal coordinate.
    pub x: i32,
    /// Vertical coordinate.
    pub y: i32,
}

impl Point {
    /// Creates a point.
    pub fn new(x: i32, y: i32) -> (p: Point)
        ensures p.x == x, p.y == y,
    {
        Point { x, y }
    }
}

/// An axis-aligned rectangle in whole device-independent pixels.
#[derive(Debug, Clone, Copy, PartialEq, Eq, Structural)]
pub struct Rect {
    /// Left edge.
    pub x: i32,
    /// Top edge.
    pub y: i32,
    /// Width.
    pub w: u32,
    /// Height.
    pub h: u32,
}

impl Rect {
    /// Creates a rectangle.
    pub fn new(x: i32, y: i32, w: u32, h: u32) -> (r: Rect)
        ensures r.x == x, r.y == y, r.w == w, r.h == h,
    {
        Rect { x, y, w, h }
    }
}

/// Minimum and maximum sizes a layout may choose between.
#[derive(Debug, Clone, Copy, PartialEq, Eq, Structural)]
pub struct Constraints {
    /// Smallest allowed size.
    pub min: Size,
    /// Largest allowed size.
    pub max: Size,
}

/// Clamps `value` into `[lo, hi]`, preferring `hi` when the bounds cross.
pub open spec fn clamp_dimension(value: int, lo: int, hi: int) -> int {
    if value < lo {
        if lo > hi { hi } else { lo }
    } else if value > hi {
        hi
    } else {
        value
    }
}

impl Constraints {
    /// Constraints that allow any size from zero up to `max`.
    pub fn loose(max: Size) -> (c: Constraints)
        ensures c.min.w == 0, c.min.h == 0, c.max == max,
    {
        Constraints { min: Size::zero(), max }
    }

    /// Constraints that allow exactly `size`.
    pub fn tight(size: Size) -> (c: Constraints)
        ensures c.min == size, c.max == size,
    {
        Constraints { min: size, max: size }
    }

    /// Constraints that allow every size.
    pub fn unconstrained() -> (c: Constraints)
        ensures c.min.w == 0, c.min.h == 0, c.max.w == u32::MAX, c.max.h == u32::MAX,
    {
        Constraints { min: Size::zero(), max: Size { w: u32::MAX, h: u32::MAX } }
    }

    /// Brings each dimension of `size` into the allowed range.
    pub fn clamp(&self, size: Size) -> (r: Size)
        ensures
            r.w == clamp_dimension(size.w as int, self.min.w as int, self.max.w as int),
            r.h == clamp_dimension(size.h as int, self.min.h as int, self.max.h as int),
    {
        let w = if size.w < self.min.w { self.min.w } else { size.w };
        let w = if w > self.max.w { self.max.w } else { w };
        let h = if size.h < self.min.h { self.min.h } else { size.h };
        let h = if h > self.max.h { self.max.h } else { h };
        Size { w, h }
    }
}

} // verus!
