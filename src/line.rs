use vstd::prelude::*;

use crate::{Line, Point};

verus! {

impl Line {
    /// Create a new line from two points.
    pub fn from_2_points(start: Point, end: Point) -> (r: Line)
        ensures
            r.start == start,
            r.end == end,
    {
        Line { start, end }
    }
}

} // verus!
