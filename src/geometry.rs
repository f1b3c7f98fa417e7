//! Resolution-independent drawing primitives.

use vstd::prelude::*;

verus! {

/// Radius of every step circle.
pub const CIRCLE_RADIUS: u64 = 8;

/// A position along one axis of the target bounds:
/// `start + extent * num / den + offset`, where `start` and `extent` are the
/// bounds' origin and size on that axis, and `offset` is in device-independent
/// units.
#[derive(Clone, Copy, Debug, PartialEq, Eq, Structural)]
pub struct Coord {
    pub num: u128,
    pub den: u128,
    pub offset: i64,
}

/// A point whose `x` is measured against the bounds' `x` and width, and whose
/// `y` against the bounds' `y` and height.
#[derive(Clone, Copy, Debug, PartialEq, Eq, Structural)]
pub struct Point {
    pub x: Coord,
    pub y: Coord,
}

/// A filled circle.
#[derive(Clone, Copy, Debug, PartialEq, Eq, Structural)]
pub struct Circle {
    pub center: Point,
    pub radius: u64,
}

/// A text label, centred on `position` along both axes.
#[derive(Clone, Debug)]
pub struct Label {
    pub text: String,
    pub position: Point,
    pub bold: bool,
}

/// A straight connector line between two step circles.
#[derive(Clone, Copy, Debug, PartialEq, Eq, Structural)]
pub struct Connector {
    pub from: Point,
    pub to: Point,
}

/// Everything one frame of the indicator draws.
#[derive(Clone, Debug)]
pub struct DrawPlan {
    pub circles: Vec<Circle>,
    pub labels: Vec<Label>,
    pub connectors: Vec<Connector>,
}

/// The same point with its axes exchanged.
pub open spec fn swap(p: Point) -> Point {
    Point { x: p.y, y: p.x }
}

/// The coordinate moved by `d` units.
pub open spec fn shifted(c: Coord, d: int) -> Coord {
    Coord { offset: (c.offset + d) as i64, ..c }
}

} // verus!
