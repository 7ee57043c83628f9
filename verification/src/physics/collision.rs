//! Collision queries and responses between axis-aligned boxes.

use crate::entities::{BodyModel, PhysicsBody, Platform, Rect, RectModel, Vec2, Vec2Model};
use crate::fixed::{
    div_toward_zero, floor_sqrt, half, halve, in_limit, isqrt, mul_scaled, scale_mul, SCALE,
};
use vstd::prelude::*;

verus! {

/// Number of moments at which a sweep looks for a collision.
pub const SWEEP_SAMPLES: i64 = 10;

/// Largest magnitude of an edge of a box that is tested for a collision.
const EDGE_LIMIT: i64 = 4_000_000_000_000_000_000;

/// A side of a box. A collision is reported with one (see
/// [`collision_side`]) and resolved toward one (see [`separated`]).
#[derive(Clone, Copy, Debug, PartialEq, Eq, Structural)]
pub enum CollisionSide {
    Top,
    Bottom,
    Left,
    Right,
}

/// What a [`CollisionInfo`] stands for, in exact arithmetic.
pub struct CollisionModel {
    pub side: CollisionSide,
    pub overlap: int,
    pub contact_point: Vec2Model,
}

/// How two overlapping boxes meet: the side, how deep the first box reaches
/// into the second along the axis of that side, and the point of contact.
#[derive(Clone, Copy, Debug, PartialEq, Eq, Structural)]
pub struct CollisionInfo {
    pub side: CollisionSide,
    pub overlap: i64,
    pub contact_point: Vec2,
}

/// Geometric queries on boxes and bodies.
#[derive(Clone, Copy, Debug, PartialEq, Eq, Structural)]
pub struct CollisionDetector;

/// Responses to a collision, applied to the moving body.
#[derive(Clone, Copy, Debug, PartialEq, Eq, Structural)]
pub struct CollisionResolver;

impl View for CollisionInfo {
    type V = CollisionModel;

    open spec fn view(&self) -> CollisionModel {
        CollisionModel {
            side: self.side,
            overlap: self.overlap as int,
            contact_point: self.contact_point@,
        }
    }
}

/// How far box `a` reaches into box `b` horizontally: the smaller of the two
/// distances from an edge of one to the opposite edge of the other.
pub open spec fn overlap_x(a: RectModel, b: RectModel) -> int {
    if a.right - b.left <= b.right - a.left {
        a.right - b.left
    } else {
        b.right - a.left
    }
}

/// How far box `a` reaches into box `b` vertically.
pub open spec fn overlap_y(a: RectModel, b: RectModel) -> int {
    if a.bottom - b.top <= b.bottom - a.top {
        a.bottom - b.top
    } else {
        b.bottom - a.top
    }
}

/// Whether a collision of `a` with `b` is resolved horizontally: only where
/// the horizontal overlap is strictly the smaller one.
pub open spec fn resolves_horizontally(a: RectModel, b: RectModel) -> bool {
    overlap_x(a, b) < overlap_y(a, b)
}

/// The side that a collision of `a` with `b` is reported with.
pub open spec fn collision_side(a: RectModel, b: RectModel) -> CollisionSide {
    if resolves_horizontally(a, b) {
        if a.left < b.left {
            CollisionSide::Right
        } else {
            CollisionSide::Left
        }
    } else {
        if a.top < b.top {
            CollisionSide::Bottom
        } else {
            CollisionSide::Top
        }
    }
}

/// The collision of box `a` with box `b`: none where they do not overlap; else
/// the side, the overlap along the axis of that side, and the centre of `a`.
pub open spec fn collision_of_rects(a: RectModel, b: RectModel) -> Option<CollisionModel> {
    if a.overlaps(b) {
        Some(
            CollisionModel {
                side: collision_side(a, b),
                overlap: if resolves_horizontally(a, b) {
                    overlap_x(a, b)
                } else {
                    overlap_y(a, b)
                },
                contact_point: a.center(),
            },
        )
    } else {
        None
    }
}

/// The collision of body `a` with body `b`.
pub open spec fn collision_between(a: BodyModel, b: BodyModel) -> Option<CollisionModel> {
    collision_of_rects(a.bounds(), b.bounds())
}

/// Where a point is after moving with `velocity` for the time `delta_time`.
pub open spec fn displaced(position: Vec2Model, velocity: Vec2Model, delta_time: int) -> Vec2Model {
    Vec2Model {
        x: position.x + mul_scaled(velocity.x, delta_time),
        y: position.y + mul_scaled(velocity.y, delta_time),
    }
}

/// The collision of `a` with `b` once `a` has moved with `velocity` for the
/// time `delta_time`. Nothing on the way there is looked at.
pub open spec fn predicted_collision(
    a: BodyModel,
    b: BodyModel,
    velocity: Vec2Model,
    delta_time: int,
) -> Option<CollisionModel> {
    collision_between(a.moved_to(displaced(a.position, velocity, delta_time)), b)
}

/// The moment of the `i`-th sample of a sweep over `delta_time`: `i` tenths of
/// it, so that the tenth sample is its end.
pub open spec fn sweep_time(delta_time: int, i: int) -> int {
    div_toward_zero(delta_time * i, SWEEP_SAMPLES as int)
}

/// Whether a sweep finds its first collision at sample `i`.
pub open spec fn is_first_hit(
    a: BodyModel,
    b: BodyModel,
    velocity: Vec2Model,
    delta_time: int,
    i: int,
) -> bool {
    &&& 1 <= i <= SWEEP_SAMPLES
    &&& predicted_collision(a, b, velocity, sweep_time(delta_time, i)) is Some
    &&& forall|j: int|
        1 <= j < i ==> predicted_collision(a, b, velocity, #[trigger] sweep_time(delta_time, j))
            is None
}

/// Whether `a` stands on `b`: they overlap horizontally, and the lower edge
/// of `a` is no further than `tolerance` from the top of `b`.
pub open spec fn stands_on(a: BodyModel, b: BodyModel, tolerance: int) -> bool {
    let gap = a.bounds().bottom - b.bounds().top;
    &&& a.bounds().left < b.bounds().right
    &&& a.bounds().right > b.bounds().left
    &&& -tolerance <= gap <= tolerance
}

/// Centre of a body: its position plus half its extent.
pub open spec fn body_center(a: BodyModel) -> Vec2Model {
    Vec2Model { x: a.position.x + half(a.size.x), y: a.position.y + half(a.size.y) }
}

/// Distance between the centres of two bodies, rounded down.
pub open spec fn center_distance(a: BodyModel, b: BodyModel) -> int {
    let dx = body_center(b).x - body_center(a).x;
    let dy = body_center(b).y - body_center(a).y;
    floor_sqrt(dx * dx + dy * dy)
}

/// Body `a` after it was pushed out of `b` toward `side`: its edge touches the
/// opposing edge of `b`, it no longer moves further into `b`, and it stands on
/// the ground where the side is the top.
pub open spec fn separated(a: BodyModel, b: BodyModel, side: CollisionSide) -> BodyModel {
    match side {
        CollisionSide::Top => BodyModel {
            position: Vec2Model { x: a.position.x, y: b.position.y - a.size.y },
            velocity: Vec2Model {
                x: a.velocity.x,
                y: if a.velocity.y <= 0 { a.velocity.y } else { 0 },
            },
            on_ground: true,
            ..a
        },
        CollisionSide::Bottom => BodyModel {
            position: Vec2Model { x: a.position.x, y: b.position.y + b.size.y },
            velocity: Vec2Model {
                x: a.velocity.x,
                y: if a.velocity.y >= 0 { a.velocity.y } else { 0 },
            },
            ..a
        },
        CollisionSide::Left => BodyModel {
            position: Vec2Model { x: b.position.x - a.size.x, y: a.position.y },
            velocity: Vec2Model {
                x: if a.velocity.x <= 0 { a.velocity.x } else { 0 },
                y: a.velocity.y,
            },
            ..a
        },
        CollisionSide::Right => BodyModel {
            position: Vec2Model { x: b.position.x + b.size.x, y: a.position.y },
            velocity: Vec2Model {
                x: if a.velocity.x >= 0 { a.velocity.x } else { 0 },
                y: a.velocity.y,
            },
            ..a
        },
    }
}

/// Body `a` after it bounced off toward `side`: the velocity along the axis
/// of the side is reversed and scaled by `restitution`.
pub open spec fn bounced(a: BodyModel, side: CollisionSide, restitution: int) -> BodyModel {
    match side {
        CollisionSide::Top | CollisionSide::Bottom => BodyModel {
            velocity: Vec2Model { x: a.velocity.x, y: mul_scaled(-a.velocity.y, restitution) },
            ..a
        },
        CollisionSide::Left | CollisionSide::Right => BodyModel {
            velocity: Vec2Model { x: mul_scaled(-a.velocity.x, restitution), y: a.velocity.y },
            ..a
        },
    }
}

/// Body `a` after friction: on the ground its horizontal velocity is scaled by
/// one minus `coefficient`; in the air nothing changes.
pub open spec fn slowed(a: BodyModel, coefficient: int) -> BodyModel {
    if a.on_ground {
        BodyModel {
            velocity: Vec2Model {
                x: mul_scaled(a.velocity.x, SCALE - coefficient),
                y: a.velocity.y,
            },
            ..a
        }
    } else {
        a
    }
}

/// Whether the four edges are small enough to be tested for a collision.
spec fn edges_in_limit(rect: Rect) -> bool {
    &&& -EDGE_LIMIT <= rect.0 <= EDGE_LIMIT
    &&& -EDGE_LIMIT <= rect.1 <= EDGE_LIMIT
    &&& -EDGE_LIMIT <= rect.2 <= EDGE_LIMIT
    &&& -EDGE_LIMIT <= rect.3 <= EDGE_LIMIT
}

/// The collision of box `a` with box `b`.
fn rect_collision(a: Rect, b: Rect) -> (r: Option<CollisionInfo>)
    requires
        edges_in_limit(a),
        edges_in_limit(b),
    ensures
        r matches Some(info) ==> collision_of_rects(RectModel::of(a), RectModel::of(b)) == Some(
            info@,
        ),
        r is None ==> collision_of_rects(RectModel::of(a), RectModel::of(b)) is None,
{
    if !CollisionDetector::aabb_overlap(a, b) {
        return None;
    }
    let (x1, y1, x2, y2) = a;
    let (ox1, oy1, ox2, oy2) = b;
    let overlap_x: i64 = if x2 - ox1 <= ox2 - x1 {
        x2 - ox1
    } else {
        ox2 - x1
    };
    let overlap_y: i64 = if y2 - oy1 <= oy2 - y1 {
        y2 - oy1
    } else {
        oy2 - y1
    };
    let (side, overlap) = if overlap_x < overlap_y {
        if x1 < ox1 {
            (CollisionSide::Right, overlap_x)
        } else {
            (CollisionSide::Left, overlap_x)
        }
    } else {
        if y1 < oy1 {
            (CollisionSide::Bottom, overlap_y)
        } else {
            (CollisionSide::Top, overlap_y)
        }
    };
    let contact_point = Vec2::new(halve(x1 + x2), halve(y1 + y2));
    Some(CollisionInfo { side, overlap, contact_point })
}

/// The box of `body` once it has moved with `velocity` for the time `delta_time`.
fn displaced_bounds(body: &PhysicsBody, velocity: Vec2, delta_time: i64) -> (r: Rect)
    requires
        body.wf(),
        velocity@.in_limit(),
        in_limit(delta_time as int),
    ensures
        RectModel::of(r) == body@.moved_to(
            displaced(body@.position, velocity@, delta_time as int),
        ).bounds(),
        edges_in_limit(r),
{
    let x: i64 = body.position.x + scale_mul(velocity.x, delta_time);
    let y: i64 = body.position.y + scale_mul(velocity.y, delta_time);
    (x, y, x + body.size.x, y + body.size.y)
}

impl CollisionDetector {
    /// The detector. It holds no state.
    pub fn new() -> (r: Self)
        ensures
            r == CollisionDetector,
    {
        CollisionDetector
    }

    /// Whether two boxes share an area. Boxes that only touch do not.
    pub fn aabb_overlap(rect1: Rect, rect2: Rect) -> (r: bool)
        ensures
            r == RectModel::of(rect1).overlaps(RectModel::of(rect2)),
    {
        let (x1, y1, x2, y2) = rect1;
        let (ox1, oy1, ox2, oy2) = rect2;
        x1 < ox2 && x2 > ox1 && y1 < oy2 && y2 > oy1
    }

    /// How `body1` collides with `body2`: nothing where they do not overlap;
    /// else the side, the overlap and the contact point. The collision is
    /// resolved along the axis of the smaller overlap, vertically on a tie.
    pub fn get_collision_info(body1: &PhysicsBody, body2: &PhysicsBody) -> (r: Option<
        CollisionInfo,
    >)
        requires
            body1.wf(),
            body2.wf(),
        ensures
            r matches Some(info) ==> collision_between(body1@, body2@) == Some(info@),
            r is None ==> collision_between(body1@, body2@) is None,
    {
        rect_collision(body1.get_bounds(), body2.get_bounds())
    }

    /// Whether the point lies in the box, its edges included.
    pub fn point_in_rect(point: Vec2, rect: Rect) -> (r: bool)
        ensures
            r == RectModel::of(rect).contains(point@),
    {
        let (x1, y1, x2, y2) = rect;
        point.x >= x1 && point.x <= x2 && point.y >= y1 && point.y <= y2
    }

    /// How `entity` will collide with `platform` once it has moved with
    /// `velocity` for the time `delta_time`. Only that one moment is looked
    /// at: a platform that the body passes through on the way is missed.
    pub fn predict_collision(
        entity: &PhysicsBody,
        platform: &Platform,
        velocity: Vec2,
        delta_time: i64,
    ) -> (r: Option<CollisionInfo>)
        requires
            entity.wf(),
            platform.wf(),
            velocity@.in_limit(),
            in_limit(delta_time as int),
        ensures
            r matches Some(info) ==> predicted_collision(
                entity@,
                platform@.body,
                velocity@,
                delta_time as int,
            ) == Some(info@),
            r is None ==> predicted_collision(
                entity@,
                platform@.body,
                velocity@,
                delta_time as int,
            ) is None,
    {
        let future_bounds = displaced_bounds(entity, velocity, delta_time);
        rect_collision(future_bounds, platform.get_bounds())
    }

    /// The first of ten equally spaced moments of `delta_time`, the last one
    /// being its end, at which `entity`, moving with `velocity`, collides with
    /// `platform`; with the collision at that moment. Nothing between the
    /// moments is looked at.
    pub fn sweep_test(
        entity: &PhysicsBody,
        platform: &Platform,
        velocity: Vec2,
        delta_time: i64,
    ) -> (r: Option<(i64, CollisionInfo)>)
        requires
            entity.wf(),
            platform.wf(),
            velocity@.in_limit(),
            in_limit(delta_time as int),
        ensures
            r matches Some((t, info)) ==> exists|i: int|
                #[trigger] is_first_hit(entity@, platform@.body, velocity@, delta_time as int, i)
                    && t == sweep_time(delta_time as int, i) && predicted_collision(
                    entity@,
                    platform@.body,
                    velocity@,
                    t as int,
                ) == Some(info@),
            r is None ==> forall|i: int|
                1 <= i <= SWEEP_SAMPLES ==> predicted_collision(
                    entity@,
                    platform@.body,
                    velocity@,
                    #[trigger] sweep_time(delta_time as int, i),
                ) is None,
    {
        let mut i: i64 = 1;
        while i <= SWEEP_SAMPLES
            invariant
                1 <= i <= SWEEP_SAMPLES + 1,
                entity.wf(),
                platform.wf(),
                velocity@.in_limit(),
                in_limit(delta_time as int),
                forall|j: int|
                    1 <= j < i ==> predicted_collision(
                        entity@,
                        platform@.body,
                        velocity@,
                        #[trigger] sweep_time(delta_time as int, j),
                    ) is None,
            decreases SWEEP_SAMPLES + 1 - i,
        {
            assert(-100_000_000_000 <= delta_time * i <= 100_000_000_000 && (delta_time >= 0
                ==> 0 <= delta_time * i <= delta_time * 10) && (delta_time <= 0 ==> delta_time
                * 10 <= delta_time * i <= 0)) by (nonlinear_arith)
                requires
                    -10_000_000_000 <= delta_time <= 10_000_000_000,
                    1 <= i <= 10,
            ;
            let t: i64 = delta_time * i / SWEEP_SAMPLES;
            let test_bounds = displaced_bounds(entity, velocity, t);
            if let Some(collision) = rect_collision(test_bounds, platform.get_bounds()) {
                assert(is_first_hit(
                    entity@,
                    platform@.body,
                    velocity@,
                    delta_time as int,
                    i as int,
                ));
                return Some((t, collision));
            }
            i += 1;
        }
        None
    }

    /// Whether `entity` stands on `platform`: they overlap horizontally, and
    /// the lower edge of the body is no further than `tolerance` from the top
    /// of the platform, above or below. Which way the body moves is not asked.
    pub fn is_on_platform(entity: &PhysicsBody, platform: &Platform, tolerance: i64) -> (r: bool)
        requires
            entity.wf(),
            platform.wf(),
        ensures
            r == stands_on(entity@, platform@.body, tolerance as int),
    {
        let (ex1, _ey1, ex2, ey2) = entity.get_bounds();
        let (px1, py1, px2, _py2) = platform.get_bounds();
        let horizontal_overlap = ex1 < px2 && ex2 > px1;
        let gap: i64 = ey2 - py1;
        let distance: i64 = if gap < 0 {
            -gap
        } else {
            gap
        };
        let vertical_alignment = distance <= tolerance;
        horizontal_overlap && vertical_alignment
    }

    /// Distance between the centres of the two bodies, rounded down.
    pub fn distance_between(body1: &PhysicsBody, body2: &PhysicsBody) -> (r: i64)
        requires
            body1.wf(),
            body2.wf(),
        ensures
            r == center_distance(body1@, body2@),
    {
        let dx: i64 = (body2.position.x + halve(body2.size.x)) - (body1.position.x + halve(
            body1.size.x,
        ));
        let dy: i64 = (body2.position.y + halve(body2.size.y)) - (body1.position.y + halve(
            body1.size.y,
        ));
        assert(dx * dx <= 0x1000_0000_0000_0000_0000_0000_0000_0000) by (nonlinear_arith)
            requires
                -0x4000_0000_0000_0000 <= dx <= 0x4000_0000_0000_0000,
        ;
        assert(dy * dy <= 0x1000_0000_0000_0000_0000_0000_0000_0000) by (nonlinear_arith)
            requires
                -0x4000_0000_0000_0000 <= dy <= 0x4000_0000_0000_0000,
        ;
        assert(dx * dx >= 0 && dy * dy >= 0) by (nonlinear_arith);
        let squares: i128 = (dx as i128) * (dx as i128) + (dy as i128) * (dy as i128);
        let root: u64 = isqrt(squares as u128);
        assert(root < 0x8000_0000_0000_0000) by (nonlinear_arith)
            requires
                root * root <= squares,
                squares < 0x4000_0000_0000_0000_0000_0000_0000_0000,
        ;
        root as i64
    }

    /// Whether the centres of the two bodies are no further apart than
    /// `distance`.
    pub fn within_distance(body1: &PhysicsBody, body2: &PhysicsBody, distance: i64) -> (r: bool)
        requires
            body1.wf(),
            body2.wf(),
        ensures
            r == (center_distance(body1@, body2@) <= distance),
    {
        Self::distance_between(body1, body2) <= distance
    }
}

impl Default for CollisionDetector {
    fn default() -> (r: CollisionDetector)
        ensures
            r == CollisionDetector,
    {
        CollisionDetector::new()
    }
}

impl CollisionResolver {
    /// Pushes `body1` out of `body2` toward the side of the collision: its edge
    /// then touches the opposing edge of `body2`, and it no longer moves
    /// further into it. Leaving by the top, the body stands on the ground.
    /// `body2` stays where it is.
    pub fn separate_bodies(body1: &mut PhysicsBody, body2: &PhysicsBody, collision: &CollisionInfo)
        requires
            old(body1).wf(),
            body2.wf(),
        ensures
            final(body1)@ == separated(old(body1)@, body2@, collision.side),
    {
        match collision.side {
            CollisionSide::Top => {
                body1.position.y = body2.position.y - body1.size.y;
                if body1.velocity.y > 0 {
                    body1.velocity.y = 0;
                }
                body1.on_ground = true;
            },
            CollisionSide::Bottom => {
                body1.position.y = body2.position.y + body2.size.y;
                if body1.velocity.y < 0 {
                    body1.velocity.y = 0;
                }
            },
            CollisionSide::Left => {
                body1.position.x = body2.position.x - body1.size.x;
                if body1.velocity.x > 0 {
                    body1.velocity.x = 0;
                }
            },
            CollisionSide::Right => {
                body1.position.x = body2.position.x + body2.size.x;
                if body1.velocity.x < 0 {
                    body1.velocity.x = 0;
                }
            },
        }
    }

    /// Makes `body` bounce: its velocity along the axis of the collision is
    /// reversed and scaled by `restitution`, where `0` absorbs the impact and
    /// `SCALE` returns all of it. The position stays.
    pub fn apply_bounce(body: &mut PhysicsBody, collision: &CollisionInfo, restitution: i64)
        requires
            old(body).wf(),
            in_limit(restitution as int),
        ensures
            final(body)@ == bounced(old(body)@, collision.side, restitution as int),
    {
        match collision.side {
            CollisionSide::Top | CollisionSide::Bottom => {
                body.velocity.y = scale_mul(-body.velocity.y, restitution);
            },
            CollisionSide::Left | CollisionSide::Right => {
                body.velocity.x = scale_mul(-body.velocity.x, restitution);
            },
        }
    }

    /// Slows `body` down by friction: on the ground its horizontal velocity is
    /// scaled by one minus `friction_coefficient`; in the air nothing changes.
    pub fn apply_friction(body: &mut PhysicsBody, friction_coefficient: i64)
        requires
            old(body).wf(),
            in_limit(SCALE - friction_coefficient),
        ensures
            final(body)@ == slowed(old(body)@, friction_coefficient as int),
    {
        if body.on_ground {
            body.velocity.x = scale_mul(body.velocity.x, SCALE - friction_coefficient);
        }
    }
}

/// The last sample of a sweep is taken at the end of the duration.
pub proof fn lemma_sweep_ends_with_duration(delta_time: int)
    ensures
        sweep_time(delta_time, SWEEP_SAMPLES as int) == delta_time,
{
}

/// A body that was pushed out of another no longer collides with it,
/// whichever side it was pushed toward.
pub proof fn lemma_separated_bodies_do_not_collide(a: BodyModel, b: BodyModel, side: CollisionSide)
    ensures
        !separated(a, b, side).overlaps(b),
        collision_between(separated(a, b, side), b) is None,
{
}

/// Pushing a body out of another changes neither its extent nor its mass, and
/// moves it along one axis only.
pub proof fn lemma_separated_keeps_extent(a: BodyModel, b: BodyModel, side: CollisionSide)
    ensures
        separated(a, b, side).size == a.size,
        separated(a, b, side).mass == a.mass,
        separated(a, b, side).position.x == a.position.x || separated(a, b, side).position.y
            == a.position.y,
{
}

/// Bouncing and friction change nothing of a body but its velocity.
pub proof fn lemma_responses_change_only_velocity(
    a: BodyModel,
    side: CollisionSide,
    restitution: int,
    coefficient: int,
)
    ensures
        bounced(a, side, restitution) == (BodyModel {
            velocity: bounced(a, side, restitution).velocity,
            ..a
        }),
        slowed(a, coefficient) == (BodyModel { velocity: slowed(a, coefficient).velocity, ..a }),
{
}

/// Two bodies collide exactly where their boxes overlap, and then the overlap
/// that is reported is positive.
pub proof fn lemma_collision_iff_overlap(a: BodyModel, b: BodyModel)
    ensures
        collision_between(a, b) is Some <==> a.overlaps(b),
        collision_between(a, b) matches Some(c) ==> c.overlap > 0,
{
}

/// Where the two overlaps are equal, the collision is resolved vertically.
pub proof fn lemma_tie_resolves_vertically(a: BodyModel, b: BodyModel)
    requires
        a.overlaps(b),
        overlap_x(a.bounds(), b.bounds()) == overlap_y(a.bounds(), b.bounds()),
    ensures
        collision_between(a, b) matches Some(c) && (c.side == CollisionSide::Top || c.side
            == CollisionSide::Bottom),
{
}

} // verus!
