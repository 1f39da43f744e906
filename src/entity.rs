//! Entities: sparse aggregates of attributes on the integer pixel grid.
use vstd::prelude::*;

verus! {

/// Diameter of the ball, in pixels.
pub const BALL_SIZE: i32 = 5;

/// Speed the ball is launched with, in pixels per tick.
pub const BALL_SPEED: i32 = 5;

/// Speed of a paddle, in pixels per tick.
pub const PADDLE_SPEED: i32 = 1;

pub const PADDLE_WIDTH: i32 = 10;

pub const PADDLE_HEIGHT: i32 = 50;

/// Distance from a window edge to the center of the paddle beside it.
pub const PADDLE_PADDING: i32 = 50;

/// An integer pair: a position, a per-tick velocity, or a shape's extents.
#[derive(Clone, Copy, Debug, PartialEq, Eq, Structural)]
pub struct Vec2 {
    pub x: i32,
    pub y: i32,
}

impl Vec2 {
    pub fn new(x: i32, y: i32) -> (r: Vec2)
        ensures
            r.x == x,
            r.y == y,
    {
        Vec2 { x, y }
    }
}

/// The translation of a renderable transform.
#[derive(Clone, Copy, Debug, PartialEq, Eq, Structural)]
pub struct Translation {
    pub x: i32,
    pub y: i32,
    pub z: i32,
}

/// The kinds of attribute an entity may carry.
#[derive(Clone, Copy, Debug, PartialEq, Eq, Structural)]
pub enum AttributeKind {
    Position,
    Velocity,
    Shape,
    Transform,
    Ball,
    Collider,
    Paddle,
}

/// One simulated object: the attributes attached to it.
#[derive(Clone, Copy, Debug, PartialEq, Eq, Structural)]
pub struct Entity {
    pub position: Option<Vec2>,
    pub velocity: Option<Vec2>,
    pub shape: Option<Vec2>,
    pub transform: Option<Translation>,
    pub is_ball: bool,
    pub is_collider: bool,
    pub is_paddle: bool,
}

impl Entity {
    pub open spec fn has(self, kind: AttributeKind) -> bool {
        match kind {
            AttributeKind::Position => self.position is Some,
            AttributeKind::Velocity => self.velocity is Some,
            AttributeKind::Shape => self.shape is Some,
            AttributeKind::Transform => self.transform is Some,
            AttributeKind::Ball => self.is_ball,
            AttributeKind::Collider => self.is_collider,
            AttributeKind::Paddle => self.is_paddle,
        }
    }

    pub fn has_attribute(&self, kind: AttributeKind) -> (r: bool)
        ensures
            r == self.has(kind),
    {
        match kind {
            AttributeKind::Position => self.position.is_some(),
            AttributeKind::Velocity => self.velocity.is_some(),
            AttributeKind::Shape => self.shape.is_some(),
            AttributeKind::Transform => self.transform.is_some(),
            AttributeKind::Ball => self.is_ball,
            AttributeKind::Collider => self.is_collider,
            AttributeKind::Paddle => self.is_paddle,
        }
    }

    /// An entity with no attribute.
    pub fn empty() -> (r: Entity)
        ensures
            forall|k: AttributeKind| !r.has(k),
    {
        Entity {
            position: None,
            velocity: None,
            shape: None,
            transform: None,
            is_ball: false,
            is_collider: false,
            is_paddle: false,
        }
    }

    pub open spec fn ball_spec(vx: i32, vy: i32) -> Entity {
        Entity {
            position: Some(Vec2 { x: 0, y: 0 }),
            velocity: Some(Vec2 { x: vx, y: vy }),
            shape: Some(Vec2 { x: BALL_SIZE, y: BALL_SIZE }),
            transform: Some(Translation { x: 0, y: 0, z: 0 }),
            is_ball: true,
            is_collider: false,
            is_paddle: false,
        }
    }

    pub open spec fn paddle_spec(x: i32, y: i32) -> Entity {
        Entity {
            position: Some(Vec2 { x, y }),
            velocity: Some(Vec2 { x: 0, y: 0 }),
            shape: Some(Vec2 { x: PADDLE_WIDTH, y: PADDLE_HEIGHT }),
            transform: Some(Translation { x, y, z: 0 }),
            is_ball: false,
            is_collider: true,
            is_paddle: true,
        }
    }

    /// The ball: at the origin, `BALL_SIZE` across, moving by `(vx, vy)` per tick.
    pub fn ball(vx: i32, vy: i32) -> (r: Entity)
        ensures
            r == Entity::ball_spec(vx, vy),
            r.position == Some(Vec2 { x: 0, y: 0 }),
            r.velocity == Some(Vec2 { x: vx, y: vy }),
            r.shape == Some(Vec2 { x: BALL_SIZE, y: BALL_SIZE }),
            r.transform == Some(Translation { x: 0, y: 0, z: 0 }),
            r.is_ball,
            !r.is_collider,
            !r.is_paddle,
    {
        Entity {
            position: Some(Vec2::new(0, 0)),
            velocity: Some(Vec2::new(vx, vy)),
            shape: Some(Vec2::new(BALL_SIZE, BALL_SIZE)),
            transform: Some(Translation { x: 0, y: 0, z: 0 }),
            is_ball: true,
            is_collider: false,
            is_paddle: false,
        }
    }

    /// A resting paddle centered at `(x, y)`; it is also a collider.
    pub fn paddle(x: i32, y: i32) -> (r: Entity)
        ensures
            r == Entity::paddle_spec(x, y),
            r.position == Some(Vec2 { x, y }),
            r.velocity == Some(Vec2 { x: 0, y: 0 }),
            r.shape == Some(Vec2 { x: PADDLE_WIDTH, y: PADDLE_HEIGHT }),
            r.transform == Some(Translation { x, y, z: 0 }),
            !r.is_ball,
            r.is_collider,
            r.is_paddle,
    {
        Entity {
            position: Some(Vec2::new(x, y)),
            velocity: Some(Vec2::new(0, 0)),
            shape: Some(Vec2::new(PADDLE_WIDTH, PADDLE_HEIGHT)),
            transform: Some(Translation { x, y, z: 0 }),
            is_ball: false,
            is_collider: true,
            is_paddle: true,
        }
    }
}

/// The x coordinates of the right and left paddles for a window `width`
/// pixels wide (half the width is rounded down to the pixel grid).
pub open spec fn paddle_xs_spec(width: u32) -> (i32, i32) {
    ((width as int / 2 - PADDLE_PADDING) as i32, (-(width as int / 2) + PADDLE_PADDING) as i32)
}

pub fn paddle_x_positions(width: u32) -> (r: (i32, i32))
    ensures
        r == paddle_xs_spec(width),
        r.0 == width as int / 2 - PADDLE_PADDING,
        r.1 == -(width as int / 2) + PADDLE_PADDING,
{
    let half = (width / 2) as i64;
    ((half - PADDLE_PADDING as i64) as i32, (PADDLE_PADDING as i64 - half) as i32)
}

} // verus!
