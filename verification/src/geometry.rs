//! Screen-space points and axis-aligned boxes.
//!
//! The boxes are computed by the `collision` crate; this module keeps them as
//! plain coordinates so that layout and hit-testing can be reasoned about.

use collision::Contains;
use vstd::prelude::*;

verus! {

/// Height of the window. Scenes measure `y` upwards from the bottom edge,
/// the window system downwards from the top edge.
pub const VIEWPORT_HEIGHT: i32 = 400;

/// A point of the screen, in whole pixels.
#[derive(Clone, Copy, Debug, PartialEq, Eq, Structural)]
pub struct Point {
    pub x: u32,
    pub y: u32,
}

/// An axis-aligned box given by two opposite corners.
///
/// The box holds a point when the point is at or after `min` and before `max`
/// on both axes: the low edges belong to the box, the high edges do not.
#[derive(Clone, Copy, Debug, PartialEq, Eq, Structural)]
pub struct Aabb {
    pub min: Point,
    pub max: Point,
}

/// The smaller of two coordinates.
pub open spec fn lower(a: u32, b: u32) -> u32 {
    if a <= b {
        a
    } else {
        b
    }
}

/// The larger of two coordinates.
pub open spec fn upper(a: u32, b: u32) -> u32 {
    if a >= b {
        a
    } else {
        b
    }
}

impl Aabb {
    /// Whether the point `(x, y)` lies in the box, its low edges included.
    pub open spec fn holds(self, x: int, y: int) -> bool {
        self.min.x <= x < self.max.x && self.min.y <= y < self.max.y
    }

    /// Whether the two boxes have no point in common.
    pub open spec fn disjoint(self, other: Aabb) -> bool {
        forall|x: int, y: int| !(#[trigger] self.holds(x, y) && other.holds(x, y))
    }

    /// The box spanned by two points, whichever corners they are.
    pub open spec fn spanning(corner: Point, opposite: Point) -> Aabb {
        Aabb {
            min: Point { x: lower(corner.x, opposite.x), y: lower(corner.y, opposite.y) },
            max: Point { x: upper(corner.x, opposite.x), y: upper(corner.y, opposite.y) },
        }
    }

    /// The four corners in the order in which they are drawn as a strip:
    /// low-low, high-low, low-high, high-high (x first).
    pub open spec fn corners(self) -> Seq<Point> {
        seq![
            self.min,
            Point { x: self.max.x, y: self.min.y },
            Point { x: self.min.x, y: self.max.y },
            self.max,
        ]
    }

    /// Builds the box spanned by two points.
    ///
    /// Trusted: calls `collision::Aabb2::new`, which takes the smaller
    /// coordinate of the two points as `min` and the larger as `max`, on each
    /// axis by itself.
    #[verifier::external_body]
    pub(crate) fn new(corner: Point, opposite: Point) -> (aabb: Aabb)
        ensures
            aabb == Aabb::spanning(corner, opposite),
    {
        let b = collision::Aabb2::new(
            cgmath::Point2::new(corner.x, corner.y),
            cgmath::Point2::new(opposite.x, opposite.y),
        );
        Aabb { min: Point { x: b.min.x, y: b.min.y }, max: Point { x: b.max.x, y: b.max.y } }
    }

    /// Tests a point against the box.
    ///
    /// Trusted: calls `contains` of `collision::Contains` on an `Aabb2` with
    /// this box's corners, which compares `min <= p` and `p < max` on both
    /// axes.
    #[verifier::external_body]
    pub(crate) fn contains(&self, p: Point) -> (hit: bool)
        ensures
            hit == self.holds(p.x as int, p.y as int),
    {
        let b = collision::Aabb2 {
            min: cgmath::Point2::new(self.min.x, self.min.y),
            max: cgmath::Point2::new(self.max.x, self.max.y),
        };
        b.contains(&cgmath::Point2::new(p.x, p.y))
    }

    /// Lists the corners of the box.
    ///
    /// Trusted: calls `collision::Aabb2::to_corners`, which gives `min`, then
    /// `max.x` with `min.y`, then `min.x` with `max.y`, then `max`.
    #[verifier::external_body]
    pub(crate) fn to_corners(&self) -> (corners: Vec<Point>)
        ensures
            corners@ == self.corners(),
    {
        let b = collision::Aabb2 {
            min: cgmath::Point2::new(self.min.x, self.min.y),
            max: cgmath::Point2::new(self.max.x, self.max.y),
        };
        b.to_corners().iter().map(|p| Point { x: p.x, y: p.y }).collect()
    }
}

} // verus!
