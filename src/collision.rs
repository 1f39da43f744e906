//! Side-of-impact classification between the ball's circle and a box.
use vstd::prelude::*;
use crate::geometry::{Aabb, BoundingCircle, Point};

verus! {

/// The face of a box that the ball is judged to have struck.
#[derive(Clone, Copy, Debug, PartialEq, Eq, Structural)]
pub enum Collision {
    Left,
    Right,
    Top,
    Bottom,
}

impl Collision {
    /// Whether this side reverses the horizontal velocity component.
    pub open spec fn is_horizontal(self) -> bool {
        self is Left || self is Right
    }
}

pub open spec fn abs(v: int) -> int {
    if v < 0 {
        -v
    } else {
        v
    }
}

/// The side named by the offset from the box's nearest point to the ball's
/// center: the horizontal axis is taken only when it strictly dominates, so an
/// exact diagonal counts as vertical.
pub open spec fn side_of(dx: int, dy: int) -> Collision {
    if abs(dx) > abs(dy) {
        if dx < 0 {
            Collision::Left
        } else {
            Collision::Right
        }
    } else if dy > 0 {
        Collision::Top
    } else {
        Collision::Bottom
    }
}

/// `None` when the circle misses the box, else the side from the offset of
/// the circle's center to the box's nearest point.
pub open spec fn collision_spec(ball: BoundingCircle, paddle: Aabb) -> Option<Collision> {
    if !ball.meets(paddle) {
        None
    } else {
        let closest = paddle.closest_point_spec(ball.center);
        Some(side_of(ball.center.x - closest.x, ball.center.y - closest.y))
    }
}

/// An exact diagonal offset is classified by its vertical component.
pub proof fn lemma_diagonal_is_vertical(dx: int, dy: int)
    requires
        abs(dx) == abs(dy),
    ensures
        side_of(dx, dy) == (if dy > 0 {
            Collision::Top
        } else {
            Collision::Bottom
        }),
{
}

/// Classifies an offset by `side_of`.
pub fn classify_side(offset: Point) -> (r: Collision)
    ensures
        r == side_of(offset.x as int, offset.y as int),
{
    let ax: i128 = if offset.x < 0 { -(offset.x as i128) } else { offset.x as i128 };
    let ay: i128 = if offset.y < 0 { -(offset.y as i128) } else { offset.y as i128 };
    if ax > ay {
        if offset.x < 0 {
            Collision::Left
        } else {
            Collision::Right
        }
    } else if offset.y > 0 {
        Collision::Top
    } else {
        Collision::Bottom
    }
}

/// Tests the ball's circle against a box and classifies the side of impact.
pub fn collide_with_side(ball: &BoundingCircle, paddle: &Aabb) -> (r: Option<Collision>)
    requires
        ball.wf(),
        paddle.wf(),
    ensures
        r == collision_spec(*ball, *paddle),
{
    if !ball.intersects(paddle) {
        return None;
    }
    let closest = paddle.closest_point(ball.center);
    let offset = Point::new(ball.center.x - closest.x, ball.center.y - closest.y);
    Some(classify_side(offset))
}

} // verus!
