//! Bodies and the boxes they occupy.

use crate::fixed::{half, in_limit, in_position_limit, LIMIT, POSITION_LIMIT, SCALE};
use vstd::prelude::*;

pub mod collectible;
pub mod platform;
pub mod player;

pub use collectible::{Collectible, CollectibleType};
pub use platform::{Platform, PlatformType};
pub use player::Player;

verus! {

/// A point or a displacement of the plane, in exact arithmetic.
pub struct Vec2Model {
    pub x: int,
    pub y: int,
}

/// An axis-aligned box, given by its four edges, in exact arithmetic.
///
/// `y` grows downward: `top` is the smaller coordinate.
pub struct RectModel {
    pub left: int,
    pub top: int,
    pub right: int,
    pub bottom: int,
}

/// What a [`PhysicsBody`] stands for, in exact arithmetic.
pub struct BodyModel {
    pub position: Vec2Model,
    pub velocity: Vec2Model,
    pub size: Vec2Model,
    pub on_ground: bool,
    pub mass: int,
}

/// A box as the queries take it: left, top, right and bottom edge.
pub type Rect = (i64, i64, i64, i64);

/// A point or a displacement of the plane.
#[derive(Clone, Copy, Debug, PartialEq, Eq, Structural)]
pub struct Vec2 {
    pub x: i64,
    pub y: i64,
}

/// Kinematic state of one simulated thing.
///
/// The body occupies the box from `position` to `position + size`; `size` never
/// changes after construction.
#[derive(Clone, Copy, Debug, PartialEq, Eq, Structural)]
pub struct PhysicsBody {
    pub position: Vec2,
    pub velocity: Vec2,
    pub size: Vec2,
    pub on_ground: bool,
    pub mass: i64,
}

/// What every thing in the world has in common: a place, an extent, and a
/// way to let a frame pass.
pub trait Entity: Sized {
    /// The body that the entity has in the simulation.
    spec fn body_model(&self) -> BodyModel;

    /// Whether the entity can let the time `delta_time` pass.
    spec fn can_update(&self, delta_time: int) -> bool;

    /// Whether `after` is this entity once the time `delta_time` has passed.
    spec fn is_updated(&self, delta_time: int, after: &Self) -> bool;

    /// Where the entity is: the upper left corner of its box.
    fn position(&self) -> (r: Vec2)
        ensures
            r@ == self.body_model().position,
    ;

    /// Width and height of the entity.
    fn size(&self) -> (r: Vec2)
        ensures
            r@ == self.body_model().size,
    ;

    /// Lets the time `delta_time` pass for the entity by itself.
    fn update(&mut self, delta_time: i64)
        requires
            old(self).can_update(delta_time as int),
        ensures
            old(self).is_updated(delta_time as int, final(self)),
    ;
}

impl Vec2Model {
    /// Whether both components are within [`LIMIT`].
    pub open spec fn in_limit(self) -> bool {
        in_limit(self.x) && in_limit(self.y)
    }

    /// Whether both components are within [`POSITION_LIMIT`].
    pub open spec fn in_position_limit(self) -> bool {
        in_position_limit(self.x) && in_position_limit(self.y)
    }
}

impl RectModel {
    /// The box that a tuple of four edges stands for.
    pub open spec fn of(rect: Rect) -> RectModel {
        RectModel { left: rect.0 as int, top: rect.1 as int, right: rect.2 as int, bottom: rect.3 as int }
    }

    /// Whether the box has an area: its edges are in order on both axes.
    pub open spec fn has_area(self) -> bool {
        self.left < self.right && self.top < self.bottom
    }

    /// Whether two boxes share an area. Boxes that only touch do not.
    pub open spec fn overlaps(self, other: RectModel) -> bool {
        &&& self.left < other.right
        &&& self.right > other.left
        &&& self.top < other.bottom
        &&& self.bottom > other.top
    }

    /// Whether the point lies in the box, its edges included.
    pub open spec fn contains(self, point: Vec2Model) -> bool {
        &&& self.left <= point.x <= self.right
        &&& self.top <= point.y <= self.bottom
    }

    /// Width of the intersection of two boxes; not positive where there is none.
    pub open spec fn intersection_width(self, other: RectModel) -> int {
        let right = if self.right <= other.right { self.right } else { other.right };
        let left = if self.left >= other.left { self.left } else { other.left };
        right - left
    }

    /// Height of the intersection of two boxes; not positive where there is none.
    pub open spec fn intersection_height(self, other: RectModel) -> int {
        let bottom = if self.bottom <= other.bottom { self.bottom } else { other.bottom };
        let top = if self.top >= other.top { self.top } else { other.top };
        bottom - top
    }

    /// Midpoint of the box, each coordinate rounded toward zero.
    pub open spec fn center(self) -> Vec2Model {
        Vec2Model { x: half(self.left + self.right), y: half(self.top + self.bottom) }
    }
}

impl BodyModel {
    /// A body at rest in the air at `(x, y)`, `width` wide and `height` high,
    /// with a mass of one unit.
    pub open spec fn at_rest(x: int, y: int, width: int, height: int) -> BodyModel {
        BodyModel {
            position: Vec2Model { x, y },
            velocity: Vec2Model { x: 0, y: 0 },
            size: Vec2Model { x: width, y: height },
            on_ground: false,
            mass: SCALE as int,
        }
    }

    /// The box that the body occupies.
    pub open spec fn bounds(self) -> RectModel {
        RectModel {
            left: self.position.x,
            top: self.position.y,
            right: self.position.x + self.size.x,
            bottom: self.position.y + self.size.y,
        }
    }

    /// Whether the boxes of two bodies share an area.
    pub open spec fn overlaps(self, other: BodyModel) -> bool {
        self.bounds().overlaps(other.bounds())
    }

    /// The same body at another place.
    pub open spec fn moved_to(self, position: Vec2Model) -> BodyModel {
        BodyModel { position, ..self }
    }

    /// Whether the body is one that the simulation accepts: its extent is
    /// positive on both axes and, like its velocity, within [`LIMIT`], and
    /// its position is within [`POSITION_LIMIT`]. A body without extent is
    /// not accepted anywhere.
    pub open spec fn wf(self) -> bool {
        &&& self.position.in_position_limit()
        &&& self.velocity.in_limit()
        &&& 0 < self.size.x <= LIMIT
        &&& 0 < self.size.y <= LIMIT
    }
}

impl View for Vec2 {
    type V = Vec2Model;

    open spec fn view(&self) -> Vec2Model {
        Vec2Model { x: self.x as int, y: self.y as int }
    }
}

impl View for PhysicsBody {
    type V = BodyModel;

    open spec fn view(&self) -> BodyModel {
        BodyModel {
            position: self.position@,
            velocity: self.velocity@,
            size: self.size@,
            on_ground: self.on_ground,
            mass: self.mass as int,
        }
    }
}

impl Vec2 {
    /// The vector with the given components.
    pub fn new(x: i64, y: i64) -> (r: Vec2)
        ensures
            r.x == x,
            r.y == y,
    {
        Vec2 { x, y }
    }

    /// The vector without length.
    pub fn zero() -> (r: Vec2)
        ensures
            r.x == 0,
            r.y == 0,
    {
        Vec2 { x: 0, y: 0 }
    }

    /// Whether both components are within [`LIMIT`].
    pub fn is_in_limit(&self) -> (r: bool)
        ensures
            r == self@.in_limit(),
    {
        -LIMIT <= self.x && self.x <= LIMIT && -LIMIT <= self.y && self.y <= LIMIT
    }

    /// Whether both components are within [`POSITION_LIMIT`].
    pub fn is_in_position_limit(&self) -> (r: bool)
        ensures
            r == self@.in_position_limit(),
    {
        -POSITION_LIMIT <= self.x && self.x <= POSITION_LIMIT && -POSITION_LIMIT <= self.y
            && self.y <= POSITION_LIMIT
    }
}

impl PhysicsBody {
    /// Whether the body is one that the simulation accepts; see [`BodyModel::wf`].
    pub open spec fn wf(&self) -> bool {
        self@.wf()
    }

    /// A body at rest in the air at `(x, y)`, `width` wide and `height` high,
    /// with a mass of one unit.
    pub fn new(x: i64, y: i64, width: i64, height: i64) -> (r: PhysicsBody)
        ensures
            r@ == BodyModel::at_rest(x as int, y as int, width as int, height as int),
    {
        PhysicsBody {
            position: Vec2::new(x, y),
            velocity: Vec2::zero(),
            size: Vec2::new(width, height),
            on_ground: false,
            mass: SCALE,
        }
    }

    /// Whether the body is one that the simulation accepts.
    pub fn is_well_formed(&self) -> (r: bool)
        ensures
            r == self.wf(),
    {
        self.position.is_in_position_limit() && self.velocity.is_in_limit() && 0 < self.size.x
            && self.size.x <= LIMIT && 0 < self.size.y && self.size.y <= LIMIT
    }

    /// The box that the body occupies: left, top, right and bottom edge.
    pub fn get_bounds(&self) -> (r: Rect)
        requires
            self.wf(),
        ensures
            RectModel::of(r) == self@.bounds(),
    {
        (
            self.position.x,
            self.position.y,
            self.position.x + self.size.x,
            self.position.y + self.size.y,
        )
    }

    /// Whether the boxes of the two bodies share an area. Boxes that only
    /// touch do not.
    pub fn overlaps_with(&self, other: &PhysicsBody) -> (r: bool)
        requires
            self.wf(),
            other.wf(),
        ensures
            r == self@.overlaps(other@),
    {
        let (x1, y1, x2, y2) = self.get_bounds();
        let (ox1, oy1, ox2, oy2) = other.get_bounds();
        x1 < ox2 && x2 > ox1 && y1 < oy2 && y2 > oy1
    }
}

/// Boxes whose intersection has no area on one axis, because they lie apart
/// or share only an edge or a corner, do not overlap; boxes whose intersection
/// has an area do.
pub proof fn lemma_overlap_is_positive_intersection(a: RectModel, b: RectModel)
    requires
        a.has_area(),
        b.has_area(),
    ensures
        a.overlaps(b) <==> a.intersection_width(b) > 0 && a.intersection_height(b) > 0,
{
}

/// Two boxes of which one lies beside, above or below the other do not
/// overlap, whether there is room between them or they share an edge.
pub proof fn lemma_boxes_apart_do_not_overlap(a: RectModel, b: RectModel)
    requires
        a.right <= b.left || b.right <= a.left || a.bottom <= b.top || b.bottom <= a.top,
    ensures
        !a.overlaps(b),
{
}

/// Overlapping is symmetric.
pub proof fn lemma_overlap_symmetric(a: RectModel, b: RectModel)
    ensures
        a.overlaps(b) == b.overlaps(a),
{
}

} // verus!
