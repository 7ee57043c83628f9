//! Platforms: the obstacles a body lands on and runs into.

use super::{BodyModel, Entity, PhysicsBody, Rect, RectModel, Vec2};
use crate::fixed::in_position_limit;
use vstd::prelude::*;

verus! {

/// How far, in thousandths of a pixel, a body may be above or below the top of
/// a platform and still count as landing on it.
pub const LANDING_TOLERANCE: i64 = 5000;

/// What a platform is made of. The kind decides how it is drawn, never how it
/// collides.
#[derive(Clone, Copy, Debug, PartialEq, Eq, Structural)]
pub enum PlatformType {
    Ground,
    Normal,
    Breakable,
    Moving,
}

/// What a [`Platform`] stands for, in exact arithmetic.
pub struct PlatformModel {
    pub body: BodyModel,
    pub platform_type: PlatformType,
}

/// An obstacle. Nothing in this crate moves a platform.
#[derive(Clone, Copy, Debug, PartialEq, Eq, Structural)]
pub struct Platform {
    pub body: PhysicsBody,
    pub platform_type: PlatformType,
}

impl PlatformModel {
    /// A platform of the given kind at `(x, y)`, `width` wide and `height`
    /// high.
    pub open spec fn of_kind(
        platform_type: PlatformType,
        x: int,
        y: int,
        width: int,
        height: int,
    ) -> PlatformModel {
        PlatformModel { body: BodyModel::at_rest(x, y, width, height), platform_type }
    }

    /// Whether a body that was at height `entity_prev_y` a frame ago is now
    /// landing on the platform: its lower edge was not below the top of the
    /// platform by more than [`LANDING_TOLERANCE`] then, its top is not above
    /// the top of the platform by more than that now, and it is not moving
    /// upward.
    pub open spec fn is_landing(self, entity: BodyModel, entity_prev_y: int) -> bool {
        &&& entity_prev_y + entity.size.y <= self.body.bounds().top + LANDING_TOLERANCE
        &&& entity.bounds().top >= self.body.bounds().top - LANDING_TOLERANCE
        &&& entity.velocity.y >= 0
    }
}

impl View for Platform {
    type V = PlatformModel;

    open spec fn view(&self) -> PlatformModel {
        PlatformModel { body: self.body@, platform_type: self.platform_type }
    }
}

impl Platform {
    /// Whether the platform is one that the simulation accepts: its body is.
    pub open spec fn wf(&self) -> bool {
        self.body.wf()
    }

    /// An ordinary platform at `(x, y)`, `width` wide and `height` high.
    pub fn new(x: i64, y: i64, width: i64, height: i64) -> (r: Platform)
        ensures
            r@ == PlatformModel::of_kind(
                PlatformType::Normal,
                x as int,
                y as int,
                width as int,
                height as int,
            ),
    {
        Platform { body: PhysicsBody::new(x, y, width, height), platform_type: PlatformType::Normal }
    }

    /// A stretch of ground at `(x, y)`, `width` wide and `height` high.
    pub fn new_ground(x: i64, y: i64, width: i64, height: i64) -> (r: Platform)
        ensures
            r@ == PlatformModel::of_kind(
                PlatformType::Ground,
                x as int,
                y as int,
                width as int,
                height as int,
            ),
    {
        Platform { body: PhysicsBody::new(x, y, width, height), platform_type: PlatformType::Ground }
    }

    /// A breakable platform at `(x, y)`, `width` wide and `height` high.
    pub fn new_breakable(x: i64, y: i64, width: i64, height: i64) -> (r: Platform)
        ensures
            r@ == PlatformModel::of_kind(
                PlatformType::Breakable,
                x as int,
                y as int,
                width as int,
                height as int,
            ),
    {
        Platform {
            body: PhysicsBody::new(x, y, width, height),
            platform_type: PlatformType::Breakable,
        }
    }

    /// Whether the platform is one that the simulation accepts.
    pub fn is_well_formed(&self) -> (r: bool)
        ensures
            r == self.wf(),
    {
        self.body.is_well_formed()
    }

    /// The box that the platform occupies: left, top, right and bottom edge.
    pub fn get_bounds(&self) -> (r: Rect)
        requires
            self.wf(),
        ensures
            RectModel::of(r) == self@.body.bounds(),
    {
        self.body.get_bounds()
    }

    /// Whether the platform and the body share an area.
    pub fn overlaps_with(&self, other: &PhysicsBody) -> (r: bool)
        requires
            self.wf(),
            other.wf(),
        ensures
            r == self@.body.overlaps(other@),
    {
        self.body.overlaps_with(other)
    }

    /// Whether a body that was at height `entity_prev_y` a frame ago is now
    /// landing on top of this platform.
    pub fn is_landing_on(&self, entity_body: &PhysicsBody, entity_prev_y: i64) -> (r: bool)
        requires
            self.wf(),
            entity_body.wf(),
            in_position_limit(entity_prev_y as int),
        ensures
            r == self@.is_landing(entity_body@, entity_prev_y as int),
    {
        let (_, platform_top, _, _) = self.get_bounds();
        let (_, entity_top, _, _) = entity_body.get_bounds();
        entity_prev_y + entity_body.size.y <= platform_top + LANDING_TOLERANCE
            && entity_top >= platform_top - LANDING_TOLERANCE && entity_body.velocity.y >= 0
    }
}

impl Entity for Platform {
    open spec fn body_model(&self) -> BodyModel {
        self@.body
    }

    open spec fn can_update(&self, delta_time: int) -> bool {
        true
    }

    open spec fn is_updated(&self, delta_time: int, after: &Self) -> bool {
        after == self
    }

    fn position(&self) -> (r: Vec2) {
        self.body.position
    }

    fn size(&self) -> (r: Vec2) {
        self.body.size
    }

    /// Nothing happens to a platform as time passes, whatever its kind.
    fn update(&mut self, delta_time: i64) {
    }
}

} // verus!
