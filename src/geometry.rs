//! Axis-aligned boxes and bounding circles on an integer grid.
use vstd::prelude::*;

verus! {

/// Largest coordinate magnitude the geometric queries accept; it keeps every
/// squared distance within `i128`.
pub const COORD_LIMIT: i64 = 0x1000_0000_0000_0000;

/// A point (or a vector) of the geometric queries.
#[derive(Clone, Copy, Debug, PartialEq, Eq, Structural)]
pub struct Point {
    pub x: i64,
    pub y: i64,
}

impl Point {
    pub open spec fn in_range(self) -> bool {
        -COORD_LIMIT <= self.x <= COORD_LIMIT && -COORD_LIMIT <= self.y <= COORD_LIMIT
    }

    pub fn new(x: i64, y: i64) -> (r: Point)
        ensures
            r.x == x,
            r.y == y,
    {
        Point { x, y }
    }
}

/// `v` clamped into the closed interval `[lo, hi]`.
pub open spec fn clamp(v: int, lo: int, hi: int) -> int {
    if v < lo {
        lo
    } else if v > hi {
        hi
    } else {
        v
    }
}

/// How far `v` lies outside the closed interval `[lo, hi]` (zero inside it).
pub open spec fn excess(v: int, lo: int, hi: int) -> int {
    if v < lo {
        lo - v
    } else if v > hi {
        v - hi
    } else {
        0
    }
}

/// Squared Euclidean distance between two points.
pub open spec fn dist2(a: Point, b: Point) -> int {
    (a.x - b.x) * (a.x - b.x) + (a.y - b.y) * (a.y - b.y)
}

/// An axis-aligned box given by its center and its (non-negative) half extents.
#[derive(Clone, Copy, Debug, PartialEq, Eq, Structural)]
pub struct Aabb {
    pub center: Point,
    pub half_extents: Point,
}

impl Aabb {
    pub open spec fn wf(self) -> bool {
        &&& self.center.in_range()
        &&& self.half_extents.in_range()
        &&& self.half_extents.x >= 0
        &&& self.half_extents.y >= 0
    }

    pub open spec fn min_x(self) -> int {
        self.center.x - self.half_extents.x
    }

    pub open spec fn max_x(self) -> int {
        self.center.x + self.half_extents.x
    }

    pub open spec fn min_y(self) -> int {
        self.center.y - self.half_extents.y
    }

    pub open spec fn max_y(self) -> int {
        self.center.y + self.half_extents.y
    }

    /// Whether `p` lies in the closed box.
    pub open spec fn contains(self, p: Point) -> bool {
        self.min_x() <= p.x <= self.max_x() && self.min_y() <= p.y <= self.max_y()
    }

    /// Whether `p` lies on the box's boundary.
    pub open spec fn on_boundary(self, p: Point) -> bool {
        self.contains(p) && (p.x == self.min_x() || p.x == self.max_x() || p.y == self.min_y()
            || p.y == self.max_y())
    }

    /// The point of the closed box nearest to `p`: `p` clamped on each axis.
    pub open spec fn closest_point_spec(self, p: Point) -> Point {
        Point {
            x: clamp(p.x as int, self.min_x(), self.max_x()) as i64,
            y: clamp(p.y as int, self.min_y(), self.max_y()) as i64,
        }
    }

    /// The box's own view of a circle test: the per-axis distances by which
    /// the circle's center lies outside the box, squared and summed, are at
    /// most the radius squared.
    pub open spec fn meets_circle(self, circle: BoundingCircle) -> bool {
        let ex = excess(circle.center.x as int, self.min_x(), self.max_x());
        let ey = excess(circle.center.y as int, self.min_y(), self.max_y());
        ex * ex + ey * ey <= circle.radius * circle.radius
    }

    /// Whether the per-axis intervals of the two closed boxes overlap on both axes.
    pub open spec fn overlaps(self, other: Aabb) -> bool {
        &&& self.min_x() <= other.max_x()
        &&& other.min_x() <= self.max_x()
        &&& self.min_y() <= other.max_y()
        &&& other.min_y() <= self.max_y()
    }

    pub fn new(center: Point, half_extents: Point) -> (r: Aabb)
        requires
            center.in_range(),
            half_extents.in_range(),
            half_extents.x >= 0,
            half_extents.y >= 0,
        ensures
            r.center == center,
            r.half_extents == half_extents,
            r.wf(),
    {
        Aabb { center, half_extents }
    }

    pub fn intersects(&self, other: &Aabb) -> (r: bool)
        requires
            self.wf(),
            other.wf(),
        ensures
            r == self.overlaps(*other),
    {
        self.center.x - self.half_extents.x <= other.center.x + other.half_extents.x
            && other.center.x - other.half_extents.x <= self.center.x + self.half_extents.x
            && self.center.y - self.half_extents.y <= other.center.y + other.half_extents.y
            && other.center.y - other.half_extents.y <= self.center.y + self.half_extents.y
    }

    pub fn closest_point(&self, p: Point) -> (r: Point)
        requires
            self.wf(),
        ensures
            r == self.closest_point_spec(p),
            self.contains(r),
    {
        let x = if p.x < self.center.x - self.half_extents.x {
            self.center.x - self.half_extents.x
        } else if p.x > self.center.x + self.half_extents.x {
            self.center.x + self.half_extents.x
        } else {
            p.x
        };
        let y = if p.y < self.center.y - self.half_extents.y {
            self.center.y - self.half_extents.y
        } else if p.y > self.center.y + self.half_extents.y {
            self.center.y + self.half_extents.y
        } else {
            p.y
        };
        Point { x, y }
    }

    /// The box seen from the other side of the test: whether it meets `circle`.
    pub fn intersects_circle(&self, circle: &BoundingCircle) -> (r: bool)
        requires
            self.wf(),
            circle.wf(),
        ensures
            r == self.meets_circle(*circle),
    {
        proof {
            lemma_dual_circle_test(*circle, *self);
        }
        let closest = self.closest_point(circle.center);
        squared_distance_within(circle.center, closest, circle.radius)
    }
}

/// A circle given by its center and its (non-negative) radius.
#[derive(Clone, Copy, Debug, PartialEq, Eq, Structural)]
pub struct BoundingCircle {
    pub center: Point,
    pub radius: i64,
}

impl BoundingCircle {
    pub open spec fn wf(self) -> bool {
        &&& self.center.in_range()
        &&& 0 <= self.radius <= COORD_LIMIT
    }

    /// The distance from the center to the nearest point of the box is at most
    /// the radius (compared squared, so that the test stays exact).
    pub open spec fn meets(self, aabb: Aabb) -> bool {
        dist2(self.center, aabb.closest_point_spec(self.center)) <= self.radius * self.radius
    }

    pub fn new(center: Point, radius: i64) -> (r: BoundingCircle)
        requires
            center.in_range(),
            0 <= radius <= COORD_LIMIT,
        ensures
            r.center == center,
            r.radius == radius,
            r.wf(),
    {
        BoundingCircle { center, radius }
    }

    pub fn intersects(&self, aabb: &Aabb) -> (r: bool)
        requires
            self.wf(),
            aabb.wf(),
        ensures
            r == self.meets(*aabb),
    {
        let closest = aabb.closest_point(self.center);
        squared_distance_within(self.center, closest, self.radius)
    }
}

/// A circle and a box meet by the circle's test exactly when they meet by
/// the box's: the two formulations agree.
pub proof fn lemma_dual_circle_test(circle: BoundingCircle, aabb: Aabb)
    requires
        circle.wf(),
        aabb.wf(),
    ensures
        circle.meets(aabb) == aabb.meets_circle(circle),
{
    let c = circle.center;
    let q = aabb.closest_point_spec(c);
    let ex = excess(c.x as int, aabb.min_x(), aabb.max_x());
    let ey = excess(c.y as int, aabb.min_y(), aabb.max_y());
    assert((c.x - q.x) * (c.x - q.x) == ex * ex) by (nonlinear_arith)
        requires
            c.x - q.x == ex || c.x - q.x == -ex,
    ;
    assert((c.y - q.y) * (c.y - q.y) == ey * ey) by (nonlinear_arith)
        requires
            c.y - q.y == ey || c.y - q.y == -ey,
    ;
}

/// A circle whose center lies in the closed box (its boundary included)
/// meets the box, by either formulation.
pub proof fn lemma_center_in_box_meets(circle: BoundingCircle, aabb: Aabb)
    requires
        circle.wf(),
        aabb.wf(),
        aabb.contains(circle.center),
    ensures
        circle.meets(aabb),
        aabb.meets_circle(circle),
{
    assert(aabb.closest_point_spec(circle.center) == circle.center);
    assert(circle.radius * circle.radius >= 0) by (nonlinear_arith);
    lemma_dual_circle_test(circle, aabb);
}

proof fn lemma_square_bound(v: int, b: int)
    requires
        -b <= v <= b,
    ensures
        0 <= v * v <= b * b,
{
    assert(0 <= v * v <= b * b) by (nonlinear_arith)
        requires
            -b <= v <= b,
    ;
}

/// Whether the squared distance from `a` to `b` is at most `radius` squared.
fn squared_distance_within(a: Point, b: Point, radius: i64) -> (r: bool)
    requires
        a.in_range(),
        -2 * COORD_LIMIT <= b.x <= 2 * COORD_LIMIT,
        -2 * COORD_LIMIT <= b.y <= 2 * COORD_LIMIT,
        0 <= radius <= COORD_LIMIT,
    ensures
        r == (dist2(a, b) <= radius * radius),
{
    let dx = a.x as i128 - b.x as i128;
    let dy = a.y as i128 - b.y as i128;
    let rr = radius as i128;
    proof {
        lemma_square_bound(dx as int, 0x4000_0000_0000_0000);
        lemma_square_bound(dy as int, 0x4000_0000_0000_0000);
        lemma_square_bound(rr as int, 0x4000_0000_0000_0000);
    }
    dx * dx + dy * dy <= rr * rr
}

} // verus!
