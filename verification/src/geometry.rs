//! Integer geometry: axis-aligned rectangles, circles, and the clearance
//! rules a finished packing must obey.
//!
//! Coordinates, lengths and radii are integers on a fixed grid (a caller
//! maps its world units onto the grid; e.g. one grid step per thousandth
//! of a unit).  Every bound below is chosen so that squared distances and
//! rectangle areas still fit in `i64`.

use vstd::prelude::*;

verus! {

/// Largest magnitude a coordinate, length or radius may have.
///
/// With `|dx|, |dy| <= 2 * COORD_LIMIT` the sum `dx*dx + dy*dy` stays below
/// `8 * 10^18 < i64::MAX`, and `(r1 + r2 + padding)^2 <= (3 * 10^18)^2 / 10^18`
/// stays representable as well.
pub const COORD_LIMIT: i64 = 1_000_000_000;

/// An axis-aligned rectangle: origin plus positive extent.
#[derive(Clone, Copy, PartialEq, Eq, Structural, Debug)]
pub struct Rect {
    pub x0: i64,
    pub y0: i64,
    pub width: i64,
    pub height: i64,
}

/// A circle given by its center and radius.
#[derive(Clone, Copy, PartialEq, Eq, Structural, Debug)]
pub struct Circle {
    pub cx: i64,
    pub cy: i64,
    pub radius: i64,
}

impl Rect {
    /// A usable container: positive extent, everything on the grid.
    pub open spec fn wf(self) -> bool {
        &&& -COORD_LIMIT <= self.x0 <= COORD_LIMIT
        &&& -COORD_LIMIT <= self.y0 <= COORD_LIMIT
        &&& 0 < self.width <= COORD_LIMIT
        &&& 0 < self.height <= COORD_LIMIT
    }

    /// Mathematical area of the rectangle.
    pub open spec fn spec_area(self) -> int {
        self.width * self.height
    }

    /// Area of the rectangle in grid units squared.
    pub fn area(&self) -> (a: i64)
        requires
            self.wf(),
        ensures
            a == self.spec_area(),
            0 < a <= 1_000_000_000_000_000_000i64,
    {
        proof {
            assert(self.width * self.height <= 1_000_000_000_000_000_000i64
                && self.width * self.height > 0) by (nonlinear_arith)
                requires
                    0 < self.width <= COORD_LIMIT,
                    0 < self.height <= COORD_LIMIT;
        }
        self.width * self.height
    }
}

impl Circle {
    /// A representable circle: center on the grid, non-negative radius.
    pub open spec fn wf(self) -> bool {
        &&& -COORD_LIMIT <= self.cx <= COORD_LIMIT
        &&& -COORD_LIMIT <= self.cy <= COORD_LIMIT
        &&& 0 <= self.radius <= COORD_LIMIT
    }
}

/// The two circles keep at least `padding` clearance between their borders:
/// the distance of the centers is at least the sum of the radii plus the
/// padding (stated over squares, so everything stays in integers).
pub open spec fn circles_clear(a: Circle, b: Circle, padding: int) -> bool {
    let dx = a.cx - b.cx;
    let dy = a.cy - b.cy;
    let gap = a.radius + b.radius + padding;
    dx * dx + dy * dy >= gap * gap
}

/// The circle keeps at least `padding` clearance to every edge of `r`.
pub open spec fn circle_within(c: Circle, r: Rect, padding: int) -> bool {
    &&& r.x0 + c.radius + padding <= c.cx
    &&& c.cx + c.radius + padding <= r.x0 + r.width
    &&& r.y0 + c.radius + padding <= c.cy
    &&& c.cy + c.radius + padding <= r.y0 + r.height
}

/// Decides `circles_clear` on concrete circles.
pub fn circles_clear_check(a: &Circle, b: &Circle, padding: i64) -> (res: bool)
    requires
        a.wf(),
        b.wf(),
        0 <= padding <= COORD_LIMIT,
    ensures
        res == circles_clear(*a, *b, padding as int),
{
    let dx = a.cx - b.cx;
    let dy = a.cy - b.cy;
    let gap = a.radius + b.radius + padding;
    proof {
        assert(dx * dx + dy * dy <= 8_000_000_000_000_000_000i64
            && dx * dx >= 0 && dy * dy >= 0
            && gap * gap <= 9_000_000_000_000_000_000i64
            && gap * gap >= 0) by (nonlinear_arith)
            requires
                -2 * COORD_LIMIT <= dx <= 2 * COORD_LIMIT,
                -2 * COORD_LIMIT <= dy <= 2 * COORD_LIMIT,
                0 <= gap <= 3 * COORD_LIMIT;
    }
    dx * dx + dy * dy >= gap * gap
}

/// Decides `circle_within` on a concrete circle and rectangle.
pub fn circle_within_check(c: &Circle, r: &Rect, padding: i64) -> (res: bool)
    requires
        c.wf(),
        r.wf(),
        0 <= padding <= COORD_LIMIT,
    ensures
        res == circle_within(*c, *r, padding as int),
{
    r.x0 + c.radius + padding <= c.cx
        && c.cx + c.radius + padding <= r.x0 + r.width
        && r.y0 + c.radius + padding <= c.cy
        && c.cy + c.radius + padding <= r.y0 + r.height
}

} // verus!
