//! The geometric value types the library works over: points, vectors,
//! polygon edges, axis-aligned boxes, and sweep trapezoids, together with
//! the approximate-equality comparison used to classify segments.
//!
//! Coordinates are integer scalars. The comparison tolerance `EPSILON`
//! plays the role a floating-point epsilon would play for fractional
//! scalars: a difference strictly below it counts as zero.

use vstd::prelude::*;

verus! {

/// Tolerance of the approximate comparison: differences strictly smaller
/// than this count as zero.
pub const EPSILON: i64 = 1;

/// A point in the plane.
#[derive(Clone, Copy, Debug, PartialEq, Eq, Structural)]
pub struct Point {
    pub x: i64,
    pub y: i64,
}

/// A direction vector in the plane.
#[derive(Clone, Copy, Debug, PartialEq, Eq, Structural)]
pub struct Vector {
    pub x: i64,
    pub y: i64,
}

/// A line given by an origin point and a direction vector.
#[derive(Clone, Copy, Debug, PartialEq, Eq, Structural)]
pub struct Line {
    pub origin: Point,
    pub vector: Vector,
}

/// One directed side of a polygon, carried by the line it lies on.
#[derive(Clone, Copy, Debug, PartialEq, Eq, Structural)]
pub struct Edge {
    pub line: Line,
}

/// An axis-aligned rectangle, given by its two extreme corners.
#[derive(Clone, Copy, Debug, PartialEq, Eq, Structural)]
pub struct Box2D {
    pub min: Point,
    pub max: Point,
}

/// A trapezoid as a sweep over the vertical axis produces it: two
/// horizontal parallel sides, at heights `top` and `bottom`, spanning
/// `[top_left, top_right]` and `[bottom_left, bottom_right]` on the
/// horizontal axis.
#[derive(Clone, Copy, Debug, PartialEq, Eq, Structural)]
pub struct Trapezoid {
    pub top: i64,
    pub bottom: i64,
    pub top_left: i64,
    pub top_right: i64,
    pub bottom_left: i64,
    pub bottom_right: i64,
}

/// Whether the box's corners are ordered: the minimum corner at or
/// before the maximum corner on both axes.
pub open spec fn box_wf(b: Box2D) -> bool {
    b.min.x <= b.max.x && b.min.y <= b.max.y
}

/// Whether `a` and `b` differ by less than `EPSILON`.
pub open spec fn spec_approx_eq(a: int, b: int) -> bool {
    -(EPSILON as int) < a - b < (EPSILON as int)
}

/// Whether the two scalars are approximately equal, that is, differ by
/// less than `EPSILON`.
pub fn approx_eq(a: i64, b: i64) -> (r: bool)
    ensures
        r == spec_approx_eq(a as int, b as int),
{
    let d: i128 = (a as i128) - (b as i128);
    let e: i128 = EPSILON as i128;
    -e < d && d < e
}

} // verus!
