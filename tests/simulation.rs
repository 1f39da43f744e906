use pong::collision::{classify_side, collide_with_side, Collision};
use pong::entity::{paddle_x_positions, AttributeKind, Entity, Translation, Vec2, BALL_SIZE};
use pong::geometry::{Aabb, BoundingCircle, Point};
use pong::world::{Contact, Simulation, StepError, StoreError};

fn p(x: i64, y: i64) -> Point {
    Point::new(x, y)
}

fn collider(x: i32, y: i32, w: i32, h: i32) -> Entity {
    let mut e = Entity::empty();
    e.position = Some(Vec2::new(x, y));
    e.shape = Some(Vec2::new(w, h));
    e.is_collider = true;
    e
}

#[test]
fn boxes_overlap_touch_and_miss() {
    let a = Aabb::new(p(0, 0), p(2, 2));
    assert!(a.intersects(&Aabb::new(p(3, 1), p(2, 2))));
    assert!(a.intersects(&Aabb::new(p(4, 0), p(2, 2))));
    assert!(!a.intersects(&Aabb::new(p(5, 0), p(2, 2))));
    assert!(!a.intersects(&Aabb::new(p(0, -5), p(2, 2))));
}

#[test]
fn closest_point_clamps_each_axis() {
    let a = Aabb::new(p(10, 0), p(5, 25));
    assert_eq!(a.closest_point(p(0, 0)), p(5, 0));
    assert_eq!(a.closest_point(p(30, 40)), p(15, 25));
    assert_eq!(a.closest_point(p(12, -3)), p(12, -3));
}

#[test]
fn circle_center_on_box_boundary_intersects() {
    let a = Aabb::new(p(0, 0), p(4, 4));
    let on_edge = BoundingCircle::new(p(4, 1), 0);
    let on_corner = BoundingCircle::new(p(-4, -4), 0);
    assert!(on_edge.intersects(&a));
    assert!(a.intersects_circle(&on_edge));
    assert!(on_corner.intersects(&a));
    assert!(a.intersects_circle(&on_corner));
}

#[test]
fn circle_box_tests_agree_both_ways() {
    let a = Aabb::new(p(8, 0), p(3, 3));
    let touching = BoundingCircle::new(p(0, 0), 5);
    let short = BoundingCircle::new(p(0, 0), 4);
    assert!(touching.intersects(&a));
    assert!(a.intersects_circle(&touching));
    assert!(!short.intersects(&a));
    assert!(!a.intersects_circle(&short));
    let corner = Aabb::new(p(5, 5), p(1, 1));
    let near = BoundingCircle::new(p(0, 0), 6);
    assert!(near.intersects(&corner));
    assert!(corner.intersects_circle(&near));
    let far = BoundingCircle::new(p(0, 0), 5);
    assert!(!far.intersects(&corner));
    assert!(!corner.intersects_circle(&far));
}

#[test]
fn side_classification_examples() {
    assert_eq!(classify_side(p(3, 1)), Collision::Right);
    assert_eq!(classify_side(p(-3, 1)), Collision::Left);
    assert_eq!(classify_side(p(1, 3)), Collision::Top);
    assert_eq!(classify_side(p(0, 5)), Collision::Top);
    assert_eq!(classify_side(p(0, -5)), Collision::Bottom);
    assert_eq!(classify_side(p(5, 0)), Collision::Right);
    assert_eq!(classify_side(p(-5, 0)), Collision::Left);
    assert_eq!(classify_side(p(4, 4)), Collision::Top);
    assert_eq!(classify_side(p(-4, -4)), Collision::Bottom);
    assert_eq!(classify_side(p(0, 0)), Collision::Bottom);
}

#[test]
fn collide_with_side_misses_and_hits() {
    let paddle = Aabb::new(p(20, 0), p(2, 10));
    assert_eq!(collide_with_side(&BoundingCircle::new(p(0, 0), 3), &paddle), None);
    assert_eq!(
        collide_with_side(&BoundingCircle::new(p(16, 0), 3), &paddle),
        Some(Collision::Left)
    );
    assert_eq!(
        collide_with_side(&BoundingCircle::new(p(24, 1), 3), &paddle),
        Some(Collision::Right)
    );
    assert_eq!(
        collide_with_side(&BoundingCircle::new(p(20, 12), 3), &paddle),
        Some(Collision::Top)
    );
    assert_eq!(
        collide_with_side(&BoundingCircle::new(p(21, -13), 3), &paddle),
        Some(Collision::Bottom)
    );
}

fn ball_with_velocity(sim: &mut Simulation, vx: i32, vy: i32) -> usize {
    sim.spawn_ball(vx, vy)
}

#[test]
fn resolution_flips_one_component() {
    for (side, expected) in [
        (Collision::Left, Vec2::new(-5, 2)),
        (Collision::Right, Vec2::new(-5, 2)),
        (Collision::Top, Vec2::new(5, -2)),
        (Collision::Bottom, Vec2::new(5, -2)),
    ] {
        let mut sim = Simulation::new();
        let b = ball_with_velocity(&mut sim, 5, 2);
        sim.resolve_collisions(b, &vec![Contact { collider: 0, side }]);
        assert_eq!(sim.velocity(b), Ok(expected));
    }
}

#[test]
fn two_left_hits_compound_back() {
    let mut sim = Simulation::new();
    let b = ball_with_velocity(&mut sim, 5, 2);
    let hit = Contact { collider: 1, side: Collision::Left };
    sim.resolve_collisions(b, &vec![hit, hit]);
    assert_eq!(sim.velocity(b), Ok(Vec2::new(5, 2)));
}

#[test]
fn resolution_saturates_the_smallest_component() {
    let mut sim = Simulation::new();
    let b = ball_with_velocity(&mut sim, i32::MIN, 2);
    sim.resolve_collisions(b, &vec![Contact { collider: 0, side: Collision::Right }]);
    assert_eq!(sim.velocity(b), Ok(Vec2::new(i32::MAX, 2)));
}

#[test]
fn ball_against_paddle_end_to_end() {
    let mut sim = Simulation::new();
    let b = sim.spawn_ball(5, 0);
    sim.set_position(b, Vec2::new(48, 0)).unwrap();
    let paddle = sim.spawn(Entity::paddle(50, 0));
    let hits = sim.detect_collisions(b);
    assert_eq!(hits, vec![Contact { collider: paddle, side: Collision::Bottom }]);
    assert_eq!(sim.step(), Ok(()));
    assert_eq!(sim.position(b), Ok(Vec2::new(53, 0)));
    assert_eq!(sim.velocity(b), Ok(Vec2::new(5, 0)));
}

#[test]
fn ball_bounces_off_left_face() {
    let mut sim = Simulation::new();
    let b = sim.spawn_ball(5, 0);
    sim.set_position(b, Vec2::new(38, 0)).unwrap();
    sim.spawn(Entity::paddle(50, 0));
    assert_eq!(sim.step(), Ok(()));
    assert_eq!(sim.position(b), Ok(Vec2::new(43, 0)));
    assert_eq!(sim.velocity(b), Ok(Vec2::new(-5, 0)));
    assert_eq!(sim.get(b).unwrap().transform, Some(Translation { x: 43, y: 0, z: 0 }));
}

#[test]
fn ball_overlapping_two_colliders_flips_twice() {
    let mut sim = Simulation::new();
    let b = sim.spawn_ball(4, 0);
    let right = sim.spawn(collider(7, 0, 4, 4));
    let left = sim.spawn(collider(1, 0, 4, 4));
    assert_eq!(sim.step(), Ok(()));
    assert_eq!(sim.position(b), Ok(Vec2::new(4, 0)));
    assert_eq!(
        sim.detect_collisions(b),
        vec![
            Contact { collider: right, side: Collision::Left },
            Contact { collider: left, side: Collision::Right },
        ]
    );
    assert_eq!(sim.velocity(b), Ok(Vec2::new(4, 0)));
}

#[test]
fn projection_copies_position() {
    let mut sim = Simulation::new();
    let mut e = Entity::empty();
    e.position = Some(Vec2::new(10, -20));
    e.transform = Some(Translation { x: 7, y: 7, z: 7 });
    let id = sim.spawn(e);
    sim.project_positions();
    assert_eq!(sim.get(id).unwrap().transform, Some(Translation { x: 10, y: -20, z: 0 }));
    sim.project_positions();
    assert_eq!(sim.get(id).unwrap().transform, Some(Translation { x: 10, y: -20, z: 0 }));
    assert_eq!(sim.step(), Ok(()));
    assert_eq!(sim.get(id).unwrap().transform, Some(Translation { x: 10, y: -20, z: 0 }));
}

#[test]
fn no_ball_frame_moves_nothing() {
    let mut sim = Simulation::new();
    let mut drifter = collider(1, 2, 4, 4);
    drifter.velocity = Some(Vec2::new(3, 3));
    let d = sim.spawn(drifter);
    let (r, l) = sim.spawn_paddles(800);
    assert_eq!(sim.find_ball(), None);
    assert_eq!(sim.step(), Ok(()));
    assert_eq!(sim.position(d), Ok(Vec2::new(1, 2)));
    assert_eq!(sim.position(r), Ok(Vec2::new(350, 0)));
    assert_eq!(sim.position(l), Ok(Vec2::new(-350, 0)));
}

#[test]
fn two_balls_are_a_no_op() {
    let mut sim = Simulation::new();
    let a = sim.spawn_ball(1, 1);
    let b = sim.spawn_ball(2, 2);
    assert_eq!(sim.find_ball(), None);
    assert_eq!(sim.step(), Ok(()));
    assert_eq!(sim.position(a), Ok(Vec2::new(0, 0)));
    assert_eq!(sim.position(b), Ok(Vec2::new(0, 0)));
}

#[test]
fn motion_adds_velocity_to_every_mover() {
    let mut sim = Simulation::new();
    let b = sim.spawn_ball(5, 2);
    let mut mover = Entity::empty();
    mover.position = Some(Vec2::new(-7, 9));
    mover.velocity = Some(Vec2::new(1, -1));
    let m = sim.spawn(mover);
    let mut fixed = Entity::empty();
    fixed.position = Some(Vec2::new(3, 3));
    let f = sim.spawn(fixed);
    assert_eq!(sim.find_ball(), Some(b));
    assert_eq!(sim.move_entities(), Ok(()));
    assert_eq!(sim.position(b), Ok(Vec2::new(5, 2)));
    assert_eq!(sim.position(m), Ok(Vec2::new(-6, 8)));
    assert_eq!(sim.position(f), Ok(Vec2::new(3, 3)));
    assert_eq!(sim.step(), Ok(()));
    assert_eq!(sim.position(b), Ok(Vec2::new(10, 4)));
}

#[test]
fn motion_off_the_grid_is_refused() {
    let mut sim = Simulation::new();
    let b = sim.spawn_ball(1, 0);
    sim.set_position(b, Vec2::new(i32::MAX, 0)).unwrap();
    assert!(!sim.can_move());
    assert_eq!(sim.step(), Err(StepError::PositionOverflow));
    assert_eq!(sim.position(b), Ok(Vec2::new(i32::MAX, 0)));
}

#[test]
fn attribute_access_reports_not_found() {
    let mut sim = Simulation::new();
    let id = sim.spawn(Entity::empty());
    assert_eq!(sim.position(id), Err(StoreError::NotFound));
    assert_eq!(sim.velocity(id), Err(StoreError::NotFound));
    assert_eq!(sim.shape(id), Err(StoreError::NotFound));
    assert_eq!(sim.position(9), Err(StoreError::NotFound));
    assert_eq!(sim.set_velocity(id, Vec2::new(1, 1)), Err(StoreError::NotFound));
    assert_eq!(sim.set_position(9, Vec2::new(1, 1)), Err(StoreError::NotFound));
    assert_eq!(sim.get(id), Some(Entity::empty()));
    assert_eq!(sim.get(1), None);
}

#[test]
fn query_filters_in_spawn_order() {
    let mut sim = Simulation::new();
    let (r, l) = sim.spawn_paddles(1280);
    let b = sim.spawn_ball(1, 0);
    let w = sim.spawn(collider(0, 300, 1280, 10));
    let all = sim.query(&vec![AttributeKind::Position], &vec![]);
    assert_eq!(all, vec![r, l, b, w]);
    let walls = sim.query(&vec![AttributeKind::Collider], &vec![AttributeKind::Paddle]);
    assert_eq!(walls, vec![w]);
    let movers = sim.query(&vec![AttributeKind::Position, AttributeKind::Velocity], &vec![]);
    assert_eq!(movers, vec![r, l, b]);
    assert_eq!(sim.query(&vec![AttributeKind::Ball], &vec![]), vec![b]);
    assert_eq!(sim.len(), 4);
}

#[test]
fn spawned_entities_carry_their_attributes() {
    let mut sim = Simulation::new();
    let b = sim.spawn_ball(5, -3);
    assert_eq!(sim.get(b), Some(Entity::ball(5, -3)));
    assert_eq!(sim.shape(b), Ok(Vec2::new(BALL_SIZE, BALL_SIZE)));
    assert_eq!(sim.position(b), Ok(Vec2::new(0, 0)));
    let paddle = Entity::paddle(-590, 0);
    assert_eq!(paddle.shape, Some(Vec2::new(10, 50)));
    assert!(paddle.has_attribute(AttributeKind::Collider));
    assert!(paddle.has_attribute(AttributeKind::Paddle));
    assert!(!paddle.has_attribute(AttributeKind::Ball));
    assert_eq!(sim.set_velocity(b, Vec2::new(2, 2)), Ok(()));
    assert_eq!(sim.velocity(b), Ok(Vec2::new(2, 2)));
}

#[test]
fn paddle_positions_from_window_width() {
    assert_eq!(paddle_x_positions(1280), (590, -590));
    assert_eq!(paddle_x_positions(1281), (590, -590));
    assert_eq!(paddle_x_positions(0), (-50, 50));
}
