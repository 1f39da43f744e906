//! The entity store and the per-frame systems that run over it.
use vstd::prelude::*;
use crate::collision::{collide_with_side, collision_spec, Collision};
use crate::entity::{
    paddle_x_positions, paddle_xs_spec, AttributeKind, Entity, Translation, Vec2,
};
use crate::geometry::{Aabb, BoundingCircle, Point};

verus! {

/// An attribute was asked of an entity that does not carry it (or of a
/// handle that names no entity).
#[derive(Clone, Copy, Debug, PartialEq, Eq, Structural)]
pub enum StoreError {
    NotFound,
}

/// A frame could not be stepped: some entity would move off the `i32` grid.
#[derive(Clone, Copy, Debug, PartialEq, Eq, Structural)]
pub enum StepError {
    PositionOverflow,
}

/// One reported hit: the collider's handle and the side it was struck on.
#[derive(Clone, Copy, Debug, PartialEq, Eq, Structural)]
pub struct Contact {
    pub collider: usize,
    pub side: Collision,
}

pub open spec fn fits_i32(v: int) -> bool {
    i32::MIN <= v <= i32::MAX
}

/// Entity `i` is the one and only ball of `s`.
pub open spec fn is_sole_ball(s: Seq<Entity>, i: int) -> bool {
    &&& 0 <= i < s.len()
    &&& s[i].is_ball
    &&& forall|j: int| 0 <= j < s.len() && j != i ==> !(#[trigger] s[j]).is_ball
}

/// The handle of the ball when exactly one entity carries the ball tag.
pub open spec fn sole_ball(s: Seq<Entity>) -> Option<int> {
    if exists|i: int| is_sole_ball(s, i) {
        Some(choose|i: int| is_sole_ball(s, i))
    } else {
        None
    }
}

/// Whether advancing `e` by its velocity stays on the grid.
pub open spec fn motion_fits(e: Entity) -> bool {
    match (e.position, e.velocity) {
        (Some(p), Some(v)) => fits_i32(p.x + v.x) && fits_i32(p.y + v.y),
        _ => true,
    }
}

pub open spec fn all_motion_fits(s: Seq<Entity>) -> bool {
    forall|i: int| 0 <= i < s.len() ==> motion_fits(#[trigger] s[i])
}

/// `e` advanced by one tick: its position plus its velocity, when it has both.
pub open spec fn moved(e: Entity) -> Entity {
    match (e.position, e.velocity) {
        (Some(p), Some(v)) => Entity {
            position: Some(Vec2 { x: (p.x + v.x) as i32, y: (p.y + v.y) as i32 }),
            ..e
        },
        _ => e,
    }
}

pub open spec fn moved_all(s: Seq<Entity>) -> Seq<Entity> {
    s.map_values(|e: Entity| moved(e))
}

/// `e` with its transform's translation set from its position, when it has both.
pub open spec fn projected(e: Entity) -> Entity {
    match (e.position, e.transform) {
        (Some(p), Some(_)) => Entity { transform: Some(Translation { x: p.x, y: p.y, z: 0 }), ..e },
        _ => e,
    }
}

pub open spec fn projected_all(s: Seq<Entity>) -> Seq<Entity> {
    s.map_values(|e: Entity| projected(e))
}

/// `e` carries every attribute of `required` and none of `excluded`.
pub open spec fn matches_query(
    e: Entity,
    required: Seq<AttributeKind>,
    excluded: Seq<AttributeKind>,
) -> bool {
    &&& forall|j: int| 0 <= j < required.len() ==> e.has(#[trigger] required[j])
    &&& forall|j: int| 0 <= j < excluded.len() ==> !e.has(#[trigger] excluded[j])
}

/// The handles among the first `n` entities that match the query, in spawn order.
pub open spec fn query_upto(
    s: Seq<Entity>,
    required: Seq<AttributeKind>,
    excluded: Seq<AttributeKind>,
    n: int,
) -> Seq<usize>
    decreases n,
{
    if n <= 0 {
        seq![]
    } else {
        let prev = query_upto(s, required, excluded, n - 1);
        if matches_query(s[n - 1], required, excluded) {
            prev.push((n - 1) as usize)
        } else {
            prev
        }
    }
}

/// Whether `e` carries every attribute of `kinds`.
fn has_all(e: &Entity, kinds: &Vec<AttributeKind>) -> (r: bool)
    ensures
        r == (forall|j: int| 0 <= j < kinds@.len() ==> e.has(#[trigger] kinds@[j])),
{
    let mut i: usize = 0;
    while i < kinds.len()
        invariant
            i <= kinds@.len(),
            forall|j: int| 0 <= j < i ==> e.has(#[trigger] kinds@[j]),
        decreases kinds@.len() - i,
    {
        if !e.has_attribute(kinds[i]) {
            return false;
        }
        i = i + 1;
    }
    true
}

/// Whether `e` carries no attribute of `kinds`.
fn has_none(e: &Entity, kinds: &Vec<AttributeKind>) -> (r: bool)
    ensures
        r == (forall|j: int| 0 <= j < kinds@.len() ==> !e.has(#[trigger] kinds@[j])),
{
    let mut i: usize = 0;
    while i < kinds.len()
        invariant
            i <= kinds@.len(),
            forall|j: int| 0 <= j < i ==> !e.has(#[trigger] kinds@[j]),
        decreases kinds@.len() - i,
    {
        if e.has_attribute(kinds[i]) {
            return false;
        }
        i = i + 1;
    }
    true
}

/// `e` can take part in a collision test: it has a position and a shape
/// whose extents are not negative.
pub open spec fn can_collide(e: Entity) -> bool {
    match (e.position, e.shape) {
        (Some(_), Some(sh)) => sh.x >= 0 && sh.y >= 0,
        _ => false,
    }
}

/// The ball's circle, on the half-pixel grid (coordinates doubled) so that
/// the radius `shape.x / 2` is exact.
pub open spec fn ball_circle(b: Entity) -> BoundingCircle {
    let p = b.position->Some_0;
    BoundingCircle { center: Point { x: (2 * p.x) as i64, y: (2 * p.y) as i64 }, radius: b.shape->Some_0.x as i64 }
}

/// A collider's box, on the half-pixel grid: its half extents are its shape.
pub open spec fn collider_box(c: Entity) -> Aabb {
    let p = c.position->Some_0;
    let sh = c.shape->Some_0;
    Aabb {
        center: Point { x: (2 * p.x) as i64, y: (2 * p.y) as i64 },
        half_extents: Point { x: sh.x as i64, y: sh.y as i64 },
    }
}

/// What testing ball `b` against entity `i` reports.
pub open spec fn contact_with(s: Seq<Entity>, b: int, i: int) -> Option<Collision> {
    if i != b && s[i].is_collider && can_collide(s[i]) && can_collide(s[b]) {
        collision_spec(ball_circle(s[b]), collider_box(s[i]))
    } else {
        None
    }
}

/// The hits of ball `b` against the first `n` entities, in spawn order.
pub open spec fn contacts_upto(s: Seq<Entity>, b: int, n: int) -> Seq<Contact>
    decreases n,
{
    if n <= 0 {
        seq![]
    } else {
        let prev = contacts_upto(s, b, n - 1);
        match contact_with(s, b, n - 1) {
            Some(side) => prev.push(Contact { collider: (n - 1) as usize, side }),
            None => prev,
        }
    }
}

pub open spec fn contacts(s: Seq<Entity>, b: int) -> Seq<Contact> {
    contacts_upto(s, b, s.len() as int)
}

/// Negation on `i32`, saturating at the one value whose negation does not fit.
pub open spec fn negated(v: i32) -> i32 {
    if v == i32::MIN {
        i32::MAX
    } else {
        (-v) as i32
    }
}

/// `v` after a hit on `side`: a horizontal hit flips x, a vertical one flips y.
pub open spec fn flipped(v: Vec2, side: Collision) -> Vec2 {
    if side.is_horizontal() {
        Vec2 { x: negated(v.x), y: v.y }
    } else {
        Vec2 { x: v.x, y: negated(v.y) }
    }
}

/// `v` after the hits of `cs`, applied in order.
pub open spec fn bounced(v: Vec2, cs: Seq<Contact>) -> Vec2
    decreases cs.len(),
{
    if cs.len() == 0 {
        v
    } else {
        flipped(bounced(v, cs.drop_last()), cs.last().side)
    }
}

/// `s` after ball `b` has taken the hits of `cs` (a ball with no velocity
/// is left as it is).
pub open spec fn resolved(s: Seq<Entity>, b: int, cs: Seq<Contact>) -> Seq<Entity> {
    match s[b].velocity {
        Some(v) => s.update(b, Entity { velocity: Some(bounced(v, cs)), ..s[b] }),
        None => s,
    }
}

/// `s` after collision detection and resolution: a no-op without a sole ball.
pub open spec fn collisions_handled(s: Seq<Entity>) -> Seq<Entity> {
    match sole_ball(s) {
        Some(b) => resolved(s, b, contacts(s, b)),
        None => s,
    }
}

fn negate_saturating(v: i32) -> (r: i32)
    ensures
        r == negated(v),
{
    if v == i32::MIN {
        i32::MAX
    } else {
        -v
    }
}

fn flip(v: Vec2, side: Collision) -> (r: Vec2)
    ensures
        r == flipped(v, side),
{
    match side {
        Collision::Left | Collision::Right => Vec2 { x: negate_saturating(v.x), y: v.y },
        Collision::Top | Collision::Bottom => Vec2 { x: v.x, y: negate_saturating(v.y) },
    }
}

fn entity_motion_fits(e: &Entity) -> (r: bool)
    ensures
        r == motion_fits(*e),
{
    match (e.position, e.velocity) {
        (Some(p), Some(v)) => {
            let x = p.x as i64 + v.x as i64;
            let y = p.y as i64 + v.y as i64;
            i32::MIN as i64 <= x && x <= i32::MAX as i64 && i32::MIN as i64 <= y && y
                <= i32::MAX as i64
        },
        _ => true,
    }
}

fn entity_can_collide(e: &Entity) -> (r: bool)
    ensures
        r == can_collide(*e),
{
    match (e.position, e.shape) {
        (Some(_), Some(sh)) => sh.x >= 0 && sh.y >= 0,
        _ => false,
    }
}

/// One motion step adds each moving entity's velocity to its position,
/// exactly, and changes nothing else; an entity without a velocity stays put.
pub proof fn lemma_motion_adds_velocity(s: Seq<Entity>, i: int)
    requires
        0 <= i < s.len(),
        all_motion_fits(s),
    ensures
        moved_all(s).len() == s.len(),
        match (s[i].position, s[i].velocity) {
            (Some(p), Some(v)) => {
                let q = moved_all(s)[i].position->Some_0;
                &&& moved_all(s)[i].position is Some
                &&& q.x == p.x + v.x
                &&& q.y == p.y + v.y
            },
            _ => moved_all(s)[i] == s[i],
        },
        moved_all(s)[i].velocity == s[i].velocity,
        moved_all(s)[i].shape == s[i].shape,
        moved_all(s)[i].is_ball == s[i].is_ball,
{
    assert(motion_fits(s[i]));
}

/// A hit reverses exactly one velocity component: x for Left and Right, y
/// for Top and Bottom.
pub proof fn lemma_hit_flips_sign(v: Vec2, side: Collision)
    requires
        v.x != i32::MIN,
        v.y != i32::MIN,
    ensures
        side.is_horizontal() ==> flipped(v, side).x == -v.x && flipped(v, side).y == v.y,
        !side.is_horizontal() ==> flipped(v, side).x == v.x && flipped(v, side).y == -v.y,
{
}

/// Two hits on the same axis in one frame cancel out.
pub proof fn lemma_same_axis_hits_cancel(v: Vec2, first: Contact, second: Contact)
    requires
        first.side.is_horizontal() == second.side.is_horizontal(),
        v.x != i32::MIN,
        v.y != i32::MIN,
    ensures
        bounced(v, seq![first, second]) == v,
{
    let cs = seq![first, second];
    assert(cs.drop_last() =~= seq![first]);
    assert(cs.drop_last().drop_last() =~= Seq::<Contact>::empty());
    assert(bounced(v, cs.drop_last().drop_last()) == v);
    assert(bounced(v, cs.drop_last()) == flipped(v, first.side));
    assert(cs.last() == second);
}

/// Projection sets each transform to its entity's position at depth 0, and
/// projecting again changes nothing: the transforms do not drift.
pub proof fn lemma_projection_copies_position(s: Seq<Entity>, i: int)
    requires
        0 <= i < s.len(),
        s[i].position is Some,
        s[i].transform is Some,
    ensures
        projected_all(s)[i].transform == Some(
            Translation { x: s[i].position->Some_0.x, y: s[i].position->Some_0.y, z: 0 },
        ),
        projected_all(s)[i].position == s[i].position,
        projected_all(projected_all(s)) == projected_all(s),
{
    assert(projected_all(projected_all(s)) =~= projected_all(s));
}

/// Without a ball, a frame is Ok and moves nothing: only the transforms
/// are refreshed.
pub proof fn lemma_no_ball_frame_keeps_positions(s: Seq<Entity>)
    requires
        forall|i: int| 0 <= i < s.len() ==> !(#[trigger] s[i]).is_ball,
    ensures
        sole_ball(s) is None,
        projected_all(s).len() == s.len(),
        forall|i: int|
            0 <= i < s.len() ==> (#[trigger] projected_all(s)[i]).position == s[i].position,
{
    assert forall|m: int| !is_sole_ball(s, m) by {
        if is_sole_ball(s, m) {
            assert(s[m].is_ball);
        }
    }
}

/// A container of entities addressed by the handle (index) they were given
/// when spawned; entities are never removed.
pub struct Simulation {
    entities: Vec<Entity>,
}

impl View for Simulation {
    type V = Seq<Entity>;

    closed spec fn view(&self) -> Seq<Entity> {
        self.entities@
    }
}

impl Simulation {
    pub fn new() -> (r: Simulation)
        ensures
            r@ == Seq::<Entity>::empty(),
    {
        Simulation { entities: Vec::new() }
    }

    pub fn len(&self) -> (r: usize)
        ensures
            r == self@.len(),
    {
        self.entities.len()
    }

    /// Adds `e` and returns its handle.
    pub fn spawn(&mut self, e: Entity) -> (r: usize)
        ensures
            final(self)@ == old(self)@.push(e),
            r == old(self)@.len(),
    {
        let id = self.entities.len();
        self.entities.push(e);
        id
    }

    pub fn get(&self, id: usize) -> (r: Option<Entity>)
        ensures
            r == (if id < self@.len() { Some(self@[id as int]) } else { None }),
    {
        if id < self.entities.len() {
            Some(self.entities[id])
        } else {
            None
        }
    }
    pub fn position(&self, id: usize) -> (r: Result<Vec2, StoreError>)
        ensures
            match r {
                Ok(v) => id < self@.len() && self@[id as int].position == Some(v),
                Err(e) => e == StoreError::NotFound && (id >= self@.len()
                    || self@[id as int].position is None),
            },
    {
        if id < self.entities.len() {
            match self.entities[id].position {
                Some(v) => Ok(v),
                None => Err(StoreError::NotFound),
            }
        } else {
            Err(StoreError::NotFound)
        }
    }

    pub fn velocity(&self, id: usize) -> (r: Result<Vec2, StoreError>)
        ensures
            match r {
                Ok(v) => id < self@.len() && self@[id as int].velocity == Some(v),
                Err(e) => e == StoreError::NotFound && (id >= self@.len()
                    || self@[id as int].velocity is None),
            },
    {
        if id < self.entities.len() {
            match self.entities[id].velocity {
                Some(v) => Ok(v),
                None => Err(StoreError::NotFound),
            }
        } else {
            Err(StoreError::NotFound)
        }
    }

    pub fn shape(&self, id: usize) -> (r: Result<Vec2, StoreError>)
        ensures
            match r {
                Ok(v) => id < self@.len() && self@[id as int].shape == Some(v),
                Err(e) => e == StoreError::NotFound && (id >= self@.len()
                    || self@[id as int].shape is None),
            },
    {
        if id < self.entities.len() {
            match self.entities[id].shape {
                Some(v) => Ok(v),
                None => Err(StoreError::NotFound),
            }
        } else {
            Err(StoreError::NotFound)
        }
    }

    /// Overwrites the position of an entity that already has one.
    pub fn set_position(&mut self, id: usize, v: Vec2) -> (r: Result<(), StoreError>)
        ensures
            (id < old(self)@.len() && old(self)@[id as int].position is Some) ==> r is Ok
                && final(self)@ == old(self)@.update(
                id as int,
                Entity { position: Some(v), ..old(self)@[id as int] },
            ),
            !(id < old(self)@.len() && old(self)@[id as int].position is Some) ==> r
                == Err::<(), StoreError>(StoreError::NotFound) && final(self)@ == old(self)@,
    {
        if id < self.entities.len() && self.entities[id].position.is_some() {
            let e = self.entities[id];
            self.entities.set(id, Entity { position: Some(v), ..e });
            Ok(())
        } else {
            Err(StoreError::NotFound)
        }
    }

    /// Overwrites the velocity of an entity that already has one.
    pub fn set_velocity(&mut self, id: usize, v: Vec2) -> (r: Result<(), StoreError>)
        ensures
            (id < old(self)@.len() && old(self)@[id as int].velocity is Some) ==> r is Ok
                && final(self)@ == old(self)@.update(
                id as int,
                Entity { velocity: Some(v), ..old(self)@[id as int] },
            ),
            !(id < old(self)@.len() && old(self)@[id as int].velocity is Some) ==> r
                == Err::<(), StoreError>(StoreError::NotFound) && final(self)@ == old(self)@,
    {
        if id < self.entities.len() && self.entities[id].velocity.is_some() {
            let e = self.entities[id];
            self.entities.set(id, Entity { velocity: Some(v), ..e });
            Ok(())
        } else {
            Err(StoreError::NotFound)
        }
    }

    /// The handles of the entities that carry all of `required` and none of
    /// `excluded`, in spawn order.
    pub fn query(&self, required: &Vec<AttributeKind>, excluded: &Vec<AttributeKind>) -> (r:
        Vec<usize>)
        ensures
            r@ == query_upto(self@, required@, excluded@, self@.len() as int),
    {
        let mut out: Vec<usize> = Vec::new();
        let mut i: usize = 0;
        while i < self.entities.len()
            invariant
                i <= self@.len(),
                out@ == query_upto(self@, required@, excluded@, i as int),
            decreases self@.len() - i,
        {
            let e = self.entities[i];
            if has_all(&e, required) && has_none(&e, excluded) {
                out.push(i);
            }
            i = i + 1;
        }
        out
    }
    /// The handle of the ball, when exactly one entity carries the ball tag.
    pub fn find_ball(&self) -> (r: Option<usize>)
        ensures
            r matches Some(i) ==> sole_ball(self@) == Some(i as int),
            r is None ==> sole_ball(self@) is None,
    {
        let mut found: Option<usize> = None;
        let mut i: usize = 0;
        while i < self.entities.len()
            invariant
                i <= self@.len(),
                found is None ==> forall|j: int| 0 <= j < i ==> !(#[trigger] self@[j]).is_ball,
                found matches Some(k) ==> k < i && self@[k as int].is_ball && forall|j: int|
                    0 <= j < i && j != k ==> !(#[trigger] self@[j]).is_ball,
            decreases self@.len() - i,
        {
            if self.entities[i].is_ball {
                if let Some(k) = found {
                    proof {
                        assert forall|m: int| !is_sole_ball(self@, m) by {
                            if is_sole_ball(self@, m) {
                                assert(self@[k as int].is_ball);
                                assert(self@[i as int].is_ball);
                            }
                        }
                    }
                    return None;
                }
                found = Some(i);
            }
            i = i + 1;
        }
        match found {
            Some(k) => {
                proof {
                    assert(is_sole_ball(self@, k as int));
                    let c = choose|c: int| is_sole_ball(self@, c);
                    assert(self@[c].is_ball);
                }
                Some(k)
            },
            None => {
                proof {
                    assert forall|m: int| !is_sole_ball(self@, m) by {
                        if is_sole_ball(self@, m) {
                            assert(self@[m].is_ball);
                        }
                    }
                }
                None
            },
        }
    }

    /// Whether every entity can be advanced by its velocity without leaving the grid.
    pub fn can_move(&self) -> (r: bool)
        ensures
            r == all_motion_fits(self@),
    {
        let mut i: usize = 0;
        while i < self.entities.len()
            invariant
                i <= self@.len(),
                forall|j: int| 0 <= j < i ==> motion_fits(#[trigger] self@[j]),
            decreases self@.len() - i,
        {
            if !entity_motion_fits(&self.entities[i]) {
                return false;
            }
            i = i + 1;
        }
        true
    }

    /// The motion system: with a sole ball, every entity with a position and
    /// a velocity is advanced by one tick; without one, nothing moves.
    pub fn move_entities(&mut self) -> (r: Result<(), StepError>)
        ensures
            sole_ball(old(self)@) is None ==> r is Ok && final(self)@ == old(self)@,
            sole_ball(old(self)@) is Some && !all_motion_fits(old(self)@) ==> r == Err::<
                (),
                StepError,
            >(StepError::PositionOverflow) && final(self)@ == old(self)@,
            sole_ball(old(self)@) is Some && all_motion_fits(old(self)@) ==> r is Ok
                && final(self)@ == moved_all(old(self)@),
    {
        if self.find_ball().is_none() {
            return Ok(());
        }
        if !self.can_move() {
            return Err(StepError::PositionOverflow);
        }
        let ghost start = self@;
        let mut i: usize = 0;
        while i < self.entities.len()
            invariant
                self@.len() == start.len(),
                i <= self@.len(),
                all_motion_fits(start),
                forall|j: int| 0 <= j < i ==> self@[j] == moved(#[trigger] start[j]),
                forall|j: int| i <= j < self@.len() ==> self@[j] == #[trigger] start[j],
            decreases self@.len() - i,
        {
            let e = self.entities[i];
            assert(motion_fits(start[i as int]));
            if let (Some(p), Some(v)) = (e.position, e.velocity) {
                let np = Vec2 { x: p.x + v.x, y: p.y + v.y };
                self.entities.set(i, Entity { position: Some(np), ..e });
            }
            i = i + 1;
        }
        assert(self@ =~= moved_all(start));
        Ok(())
    }

    /// What testing ball `b` against entity `i` reports.
    fn contact_between(&self, b: usize, i: usize) -> (r: Option<Collision>)
        requires
            b < self@.len(),
            i < self@.len(),
        ensures
            r == contact_with(self@, b as int, i as int),
    {
        let ball = self.entities[b];
        let other = self.entities[i];
        if i == b || !other.is_collider || !entity_can_collide(&other) || !entity_can_collide(
            &ball,
        ) {
            return None;
        }
        let (Some(bp), Some(bs)) = (ball.position, ball.shape) else { return None };
        let (Some(cp), Some(cs)) = (other.position, other.shape) else { return None };
        let circle = BoundingCircle::new(
            Point::new(2 * (bp.x as i64), 2 * (bp.y as i64)),
            bs.x as i64,
        );
        let aabb = Aabb::new(
            Point::new(2 * (cp.x as i64), 2 * (cp.y as i64)),
            Point::new(cs.x as i64, cs.y as i64),
        );
        collide_with_side(&circle, &aabb)
    }

    /// The collision system: every collider hit by ball `b`, in spawn order.
    pub fn detect_collisions(&self, b: usize) -> (r: Vec<Contact>)
        requires
            b < self@.len(),
        ensures
            r@ == contacts(self@, b as int),
    {
        let mut out: Vec<Contact> = Vec::new();
        let mut i: usize = 0;
        while i < self.entities.len()
            invariant
                b < self@.len(),
                i <= self@.len(),
                out@ == contacts_upto(self@, b as int, i as int),
            decreases self@.len() - i,
        {
            if let Some(side) = self.contact_between(b, i) {
                out.push(Contact { collider: i, side });
            }
            i = i + 1;
        }
        out
    }

    /// The resolution system: ball `b` takes the hits of `hits` in order.
    pub fn resolve_collisions(&mut self, b: usize, hits: &Vec<Contact>)
        requires
            b < old(self)@.len(),
        ensures
            final(self)@ == resolved(old(self)@, b as int, hits@),
    {
        let e = self.entities[b];
        if let Some(v0) = e.velocity {
            let mut v = v0;
            let mut i: usize = 0;
            while i < hits.len()
                invariant
                    i <= hits@.len(),
                    v == bounced(v0, hits@.take(i as int)),
                decreases hits@.len() - i,
            {
                assert(hits@.take(i + 1).drop_last() =~= hits@.take(i as int));
                v = flip(v, hits[i].side);
                i = i + 1;
            }
            assert(hits@.take(i as int) =~= hits@);
            self.entities.set(b, Entity { velocity: Some(v), ..e });
        }
    }

    /// Detection then resolution, for the sole ball; a no-op without one.
    pub fn handle_collisions(&mut self)
        ensures
            final(self)@ == collisions_handled(old(self)@),
    {
        if let Some(b) = self.find_ball() {
            let hits = self.detect_collisions(b);
            self.resolve_collisions(b, &hits);
        }
    }

    /// The projection system: each transform takes its entity's position, at depth 0.
    pub fn project_positions(&mut self)
        ensures
            final(self)@ == projected_all(old(self)@),
    {
        let ghost start = self@;
        let mut i: usize = 0;
        while i < self.entities.len()
            invariant
                self@.len() == start.len(),
                i <= self@.len(),
                forall|j: int| 0 <= j < i ==> self@[j] == projected(#[trigger] start[j]),
                forall|j: int| i <= j < self@.len() ==> self@[j] == #[trigger] start[j],
            decreases self@.len() - i,
        {
            let e = self.entities[i];
            if let (Some(p), Some(_)) = (e.position, e.transform) {
                self.entities.set(
                    i,
                    Entity { transform: Some(Translation { x: p.x, y: p.y, z: 0 }), ..e },
                );
            }
            i = i + 1;
        }
        assert(self@ =~= projected_all(start));
    }

    /// One frame: motion, then collision detection and resolution (all hits
    /// detected first, then applied in order), then projection. On overflow
    /// nothing changes.
    pub fn step(&mut self) -> (r: Result<(), StepError>)
        ensures
            sole_ball(old(self)@) is None ==> r is Ok && final(self)@ == projected_all(
                old(self)@,
            ),
            sole_ball(old(self)@) is Some && !all_motion_fits(old(self)@) ==> r == Err::<
                (),
                StepError,
            >(StepError::PositionOverflow) && final(self)@ == old(self)@,
            sole_ball(old(self)@) is Some && all_motion_fits(old(self)@) ==> r is Ok
                && final(self)@ == projected_all(collisions_handled(moved_all(old(self)@))),
    {
        let moved = self.move_entities();
        if moved.is_err() {
            return moved;
        }
        self.handle_collisions();
        self.project_positions();
        Ok(())
    }

    /// Spawns the ball at the origin, moving by `(vx, vy)` per tick.
    pub fn spawn_ball(&mut self, vx: i32, vy: i32) -> (r: usize)
        ensures
            final(self)@ == old(self)@.push(Entity::ball_spec(vx, vy)),
            r == old(self)@.len(),
    {
        self.spawn(Entity::ball(vx, vy))
    }

    /// Spawns the right paddle, then the left one, for a window `width` pixels wide.
    pub fn spawn_paddles(&mut self, width: u32) -> (r: (usize, usize))
        ensures
            final(self)@ == old(self)@.push(Entity::paddle_spec(paddle_xs_spec(width).0, 0)).push(
                Entity::paddle_spec(paddle_xs_spec(width).1, 0),
            ),
            r.0 == old(self)@.len(),
            r.1 == old(self)@.len() + 1,
    {
        let (right_x, left_x) = paddle_x_positions(width);
        let right = self.spawn(Entity::paddle(right_x, 0));
        let left = self.spawn(Entity::paddle(left_x, 0));
        (right, left)
    }
}

} // verus!
