//! Marker geometry: points, the four corners of a detected marker, and the
//! observation that is kept of one.

use vstd::prelude::*;
use crate::config::ForwardEdge;

verus! {

/// A point of the image plane, in thousandths of a pixel.
#[derive(Clone, Copy, Debug, PartialEq, Eq, Structural)]
pub struct Point {
    pub x: i32,
    pub y: i32,
}

/// The width and height of an image, in thousandths of a pixel.
#[derive(Clone, Copy, Debug, PartialEq, Eq, Structural)]
pub struct Size {
    pub width: i32,
    pub height: i32,
}

/// The corners of one detected marker, in the order the detector gives them.
#[derive(Clone, Copy, Debug, PartialEq, Eq, Structural)]
pub struct Corners {
    pub top_left: Point,
    pub top_right: Point,
    pub bottom_right: Point,
    pub bottom_left: Point,
}

/// What is kept of one detected marker: its id, where its centre is, and
/// which way its forward edge faces, in microradians.
#[derive(Clone, Copy, Debug, PartialEq, Eq, Structural)]
pub struct MarkerObservation {
    pub id: i32,
    pub centroid: Point,
    pub heading: i32,
}

/// The mean of two coordinates, rounded down.
pub open spec fn mean2(a: int, b: int) -> int {
    (a + b) / 2
}

/// The mean of four coordinates, rounded down.
pub open spec fn mean4(a: int, b: int, c: int, d: int) -> int {
    (a + b + c + d) / 4
}

fn mean_of_two(a: i32, b: i32) -> (m: i32)
    ensures
        m == mean2(a as int, b as int),
{
    // Shifted by 2^32 the sum is never negative, and the shift leaves as 2^31.
    let shifted: i64 = a as i64 + b as i64 + 0x1_0000_0000;
    (shifted / 2 - 0x8000_0000) as i32
}

fn mean_of_four(a: i32, b: i32, c: i32, d: i32) -> (m: i32)
    ensures
        m == mean4(a as int, b as int, c as int, d as int),
{
    // Shifted by 2^33 the sum is never negative, and the shift leaves as 2^31.
    let shifted: i64 = a as i64 + b as i64 + c as i64 + d as i64 + 0x2_0000_0000;
    (shifted / 4 - 0x8000_0000) as i32
}

impl Corners {
    /// The arithmetic mean of the four corners.
    pub open spec fn centre(self) -> Point {
        Point {
            x: mean4(
                self.top_left.x as int,
                self.top_right.x as int,
                self.bottom_right.x as int,
                self.bottom_left.x as int,
            ) as i32,
            y: mean4(
                self.top_left.y as int,
                self.top_right.y as int,
                self.bottom_right.y as int,
                self.bottom_left.y as int,
            ) as i32,
        }
    }

    /// The two corners that `edge` lies between.
    pub open spec fn ends(self, edge: ForwardEdge) -> (Point, Point) {
        match edge {
            ForwardEdge::Top => (self.top_left, self.top_right),
            ForwardEdge::Right => (self.top_right, self.bottom_right),
            ForwardEdge::Bottom => (self.bottom_right, self.bottom_left),
            ForwardEdge::Left => (self.bottom_left, self.top_left),
        }
    }

    /// The midpoint of `edge`: the mean of the two corners that it lies between.
    pub open spec fn front(self, edge: ForwardEdge) -> Point {
        Point {
            x: mean2(self.ends(edge).0.x as int, self.ends(edge).1.x as int) as i32,
            y: mean2(self.ends(edge).0.y as int, self.ends(edge).1.y as int) as i32,
        }
    }

    /// The marker's centre: the mean of its four corners.
    pub fn centroid(&self) -> (p: Point)
        ensures
            p == self.centre(),
            p.x == mean4(
                self.top_left.x as int,
                self.top_right.x as int,
                self.bottom_right.x as int,
                self.bottom_left.x as int,
            ),
            p.y == mean4(
                self.top_left.y as int,
                self.top_right.y as int,
                self.bottom_right.y as int,
                self.bottom_left.y as int,
            ),
    {
        Point {
            x: mean_of_four(
                self.top_left.x,
                self.top_right.x,
                self.bottom_right.x,
                self.bottom_left.x,
            ),
            y: mean_of_four(
                self.top_left.y,
                self.top_right.y,
                self.bottom_right.y,
                self.bottom_left.y,
            ),
        }
    }

    /// The midpoint of the marker's forward edge. The marker's heading is
    /// the direction from its centroid to this point. With the top edge
    /// forward it is the mean of the first two corners.
    pub fn forward_midpoint(&self, edge: ForwardEdge) -> (p: Point)
        ensures
            p == self.front(edge),
            p.x == mean2(self.ends(edge).0.x as int, self.ends(edge).1.x as int),
            p.y == mean2(self.ends(edge).0.y as int, self.ends(edge).1.y as int),
            edge == ForwardEdge::Top ==> p.x == mean2(
                self.top_left.x as int,
                self.top_right.x as int,
            ) && p.y == mean2(self.top_left.y as int, self.top_right.y as int),
    {
        let (from, to) = match edge {
            ForwardEdge::Top => (self.top_left, self.top_right),
            ForwardEdge::Right => (self.top_right, self.bottom_right),
            ForwardEdge::Bottom => (self.bottom_right, self.bottom_left),
            ForwardEdge::Left => (self.bottom_left, self.top_left),
        };
        Point { x: mean_of_two(from.x, to.x), y: mean_of_two(from.y, to.y) }
    }

    /// The observation of a marker with these corners, given the heading
    /// that its forward direction makes.
    pub fn observe(&self, id: i32, heading: i32) -> (obs: MarkerObservation)
        ensures
            obs == (MarkerObservation { id, centroid: self.centre(), heading }),
    {
        MarkerObservation { id, centroid: self.centroid(), heading }
    }
}

} // verus!
