//! Grid coordinates and inclusive rectangles.

use vstd::prelude::*;

verus! {

/// A grid coordinate.
#[derive(Clone, Copy, Debug, PartialEq, Eq, Structural)]
pub struct Point {
    pub x: i32,
    pub y: i32,
}

/// Whether a rectangle holds a point.
#[derive(Clone, Copy, Debug, PartialEq, Eq, Structural)]
pub enum Contains {
    DoesContain,
    DoesNotContain,
}

/// Where a point lies on the x axis, relative to another.
#[derive(Clone, Copy, Debug, PartialEq, Eq, Structural)]
pub enum XPointRelation {
    LeftOfPoint,
    RightOfPoint,
    OnPointX,
}

/// Where a point lies on the y axis, relative to another. The y axis grows
/// downward: a smaller y is above.
#[derive(Clone, Copy, Debug, PartialEq, Eq, Structural)]
pub enum YPointRelation {
    AbovePoint,
    BelowPoint,
    OnPointY,
}

/// Whether two points coincide.
#[derive(Clone, Copy, Debug, PartialEq, Eq, Structural)]
pub enum PointRelation {
    PointsEqual,
    PointsNotEqual,
}

/// An inclusive axis-aligned rectangle, from `min` to `max`.
#[derive(Clone, Copy, Debug, PartialEq, Eq, Structural)]
pub struct Bound {
    pub min: Point,
    pub max: Point,
}

impl Point {
    /// The point at mathematical coordinates `(x, y)` lies on the `i32` grid.
    pub open spec fn representable(x: int, y: int) -> bool {
        i32::MIN <= x <= i32::MAX && i32::MIN <= y <= i32::MAX
    }

    /// The point at `(x, y)`; meaningful where `representable(x, y)`.
    pub open spec fn at(x: int, y: int) -> Point {
        Point { x: x as i32, y: y as i32 }
    }

    pub fn new(x: i32, y: i32) -> (p: Point)
        ensures
            p.x == x,
            p.y == y,
    {
        Point { x, y }
    }

    /// This point moved by `dx` along the x axis.
    pub fn offset_x(&self, dx: i32) -> (p: Point)
        requires
            i32::MIN <= self.x + dx <= i32::MAX,
        ensures
            p.x == self.x + dx,
            p.y == self.y,
    {
        Point { x: self.x + dx, y: self.y }
    }

    /// This point moved by `dy` along the y axis.
    pub fn offset_y(&self, dy: i32) -> (p: Point)
        requires
            i32::MIN <= self.y + dy <= i32::MAX,
        ensures
            p.x == self.x,
            p.y == self.y + dy,
    {
        Point { x: self.x, y: self.y + dy }
    }

    /// This point moved by `by.x` and `by.y`.
    pub fn offset(&self, by: Point) -> (p: Point)
        requires
            i32::MIN <= self.x + by.x <= i32::MAX,
            i32::MIN <= self.y + by.y <= i32::MAX,
        ensures
            p.x == self.x + by.x,
            p.y == self.y + by.y,
    {
        Point { x: self.x + by.x, y: self.y + by.y }
    }

    pub open spec fn compare_x_spec(self, other: Point) -> XPointRelation {
        if self.x > other.x {
            XPointRelation::RightOfPoint
        } else if self.x < other.x {
            XPointRelation::LeftOfPoint
        } else {
            XPointRelation::OnPointX
        }
    }

    pub open spec fn compare_y_spec(self, other: Point) -> YPointRelation {
        if self.y > other.y {
            YPointRelation::BelowPoint
        } else if self.y < other.y {
            YPointRelation::AbovePoint
        } else {
            YPointRelation::OnPointY
        }
    }

    /// On which side of `other` this point lies along the x axis.
    pub fn compare_x(&self, other: Point) -> (r: XPointRelation)
        ensures
            r == self.compare_x_spec(other),
    {
        if self.x > other.x {
            XPointRelation::RightOfPoint
        } else if self.x < other.x {
            XPointRelation::LeftOfPoint
        } else {
            XPointRelation::OnPointX
        }
    }

    /// On which side of `other` this point lies along the y axis.
    pub fn compare_y(&self, other: Point) -> (r: YPointRelation)
        ensures
            r == self.compare_y_spec(other),
    {
        if self.y > other.y {
            YPointRelation::BelowPoint
        } else if self.y < other.y {
            YPointRelation::AbovePoint
        } else {
            YPointRelation::OnPointY
        }
    }

    /// Whether this point and `other` are the same cell.
    pub fn compare(&self, other: Point) -> (r: PointRelation)
        ensures
            r == PointRelation::PointsEqual <==> *self == other,
            r == PointRelation::PointsNotEqual <==> *self != other,
    {
        if self.x == other.x && self.y == other.y {
            PointRelation::PointsEqual
        } else {
            PointRelation::PointsNotEqual
        }
    }
}

impl Bound {
    /// The corners are ordered on both axes.
    pub open spec fn wf(self) -> bool {
        self.min.x <= self.max.x && self.min.y <= self.max.y
    }

    /// The rectangle holds the cell at mathematical coordinates `(x, y)`.
    pub open spec fn holds(self, x: int, y: int) -> bool {
        self.min.x <= x <= self.max.x && self.min.y <= y <= self.max.y
    }

    pub open spec fn contains_spec(self, p: Point) -> bool {
        self.holds(p.x as int, p.y as int)
    }

    /// Every cell of `inner` is a cell of this rectangle.
    pub open spec fn encloses_spec(self, inner: Bound) -> bool {
        !inner.wf() || (self.min.x <= inner.min.x && inner.max.x <= self.max.x
            && self.min.y <= inner.min.y && inner.max.y <= self.max.y)
    }

    /// Number of columns, as a mathematical integer; not positive where the
    /// corners are out of order on the x axis.
    pub open spec fn width_spec(self) -> int {
        self.max.x - self.min.x + 1
    }

    /// Number of rows, as a mathematical integer; not positive where the
    /// corners are out of order on the y axis.
    pub open spec fn height_spec(self) -> int {
        self.max.y - self.min.y + 1
    }

    pub fn new(min_x: i32, min_y: i32, max_x: i32, max_y: i32) -> (b: Bound)
        requires
            min_x <= max_x,
            min_y <= max_y,
        ensures
            b.wf(),
            b.min == (Point { x: min_x, y: min_y }),
            b.max == (Point { x: max_x, y: max_y }),
    {
        Bound { min: Point { x: min_x, y: min_y }, max: Point { x: max_x, y: max_y } }
    }

    /// Number of columns.
    pub fn width(&self) -> (w: i64)
        ensures
            w == self.width_spec(),
    {
        self.max.x as i64 - self.min.x as i64 + 1
    }

    /// Number of rows.
    pub fn height(&self) -> (h: i64)
        ensures
            h == self.height_spec(),
    {
        self.max.y as i64 - self.min.y as i64 + 1
    }

    /// Whether `p` lies inside the rectangle, corners and edges included.
    pub fn contains(&self, p: Point) -> (r: Contains)
        ensures
            r == Contains::DoesContain <==> self.contains_spec(p),
            r == Contains::DoesNotContain <==> !self.contains_spec(p),
    {
        if self.min.x <= p.x && p.x <= self.max.x && self.min.y <= p.y && p.y <= self.max.y {
            Contains::DoesContain
        } else {
            Contains::DoesNotContain
        }
    }

    /// The cell one reaches from `p` by `dx` and `dy`, if the rectangle holds
    /// it. A step that would leave the `i32` grid leaves the rectangle too.
    pub fn step_within(&self, p: Point, dx: i32, dy: i32) -> (r: Option<Point>)
        ensures
            r.is_some() <==> self.holds(p.x + dx, p.y + dy),
            r.is_some() ==> r.unwrap() == Point::at(p.x + dx, p.y + dy),
    {
        let x: i64 = p.x as i64 + dx as i64;
        let y: i64 = p.y as i64 + dy as i64;
        if self.min.x as i64 <= x && x <= self.max.x as i64 && self.min.y as i64 <= y && y
            <= self.max.y as i64 {
            Some(Point { x: x as i32, y: y as i32 })
        } else {
            None
        }
    }

    /// Whether every cell of `inner` is a cell of this rectangle.
    pub fn encloses(&self, inner: Bound) -> (r: bool)
        ensures
            r == self.encloses_spec(inner),
    {
        !(inner.min.x <= inner.max.x && inner.min.y <= inner.max.y) || (self.min.x <= inner.min.x
            && inner.max.x <= self.max.x && self.min.y <= inner.min.y && inner.max.y
            <= self.max.y)
    }
}

/// Both corners of a well-formed rectangle lie inside it.
pub proof fn lemma_corners_contained(b: Bound)
    requires
        b.wf(),
    ensures
        b.contains_spec(b.min),
        b.contains_spec(b.max),
{
}

/// A point with a coordinate outside `[min, max]` on either axis is not
/// contained, and a point with both coordinates inside is.
pub proof fn lemma_contains_by_axis(b: Bound, p: Point)
    ensures
        (p.x < b.min.x || p.x > b.max.x || p.y < b.min.y || p.y > b.max.y) <==> !b.contains_spec(p),
{
}

/// `encloses_spec` is set inclusion of the cells.
pub proof fn lemma_encloses_is_inclusion(outer: Bound, inner: Bound)
    ensures
        outer.encloses_spec(inner) <==> (forall|p: Point| #[trigger]
            inner.contains_spec(p) ==> outer.contains_spec(p)),
{
    if !outer.encloses_spec(inner) {
        assert(inner.contains_spec(inner.min));
        assert(inner.contains_spec(inner.max));
        assert(inner.contains_spec(Point { x: inner.min.x, y: inner.max.y }));
        assert(inner.contains_spec(Point { x: inner.max.x, y: inner.min.y }));
    }
}

} // verus!
