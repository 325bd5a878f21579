//! Planar conics over exact integer coefficients.
//!
//! The central type is [`Ellipse`], a general conic stored by the six
//! coefficients of its implicit equation. Its invariants (determinants,
//! center, axis direction, classification) are computed exactly.
use vstd::prelude::*;

pub mod ellipse;
mod line;
pub mod theorems;

pub use crate::ellipse::{ConicError, Ellipse, HomPoint, Orientation, Placement};

verus! {

/// A point with integer coordinates.
#[derive(Clone, Copy, Debug, PartialEq, Eq, Structural)]
pub struct Point {
    /// The x-coordinate.
    pub x: i32,
    /// The y-coordinate.
    pub y: i32,
}

/// A circle given by its center and radius.
#[derive(Clone, Copy, Debug, PartialEq, Eq, Structural)]
pub struct Circle {
    /// Center of the circle.
    pub center: Point,
    /// Radius of the circle.
    pub radius: u32,
}

/// A line segment between two points.
#[derive(Clone, Copy, Debug, PartialEq, Eq, Structural)]
pub struct Line {
    /// Start of the line.
    pub start: Point,
    /// End of the line.
    pub end: Point,
}

/// A direction in the plane, given by a vector `(x, y)` whose length does
/// not matter. As every angle of this crate, its angle turns from the
/// positive x-axis toward the negative y-axis: clockwise with the y-axis
/// pointing up, counterclockwise on a screen whose y-axis points down.
#[derive(Clone, Copy, Debug, PartialEq, Eq, Structural)]
pub struct Direction {
    /// The x-component.
    pub x: i16,
    /// The y-component.
    pub y: i16,
}

} // verus!
