//! Collectibles: things that are worth points to the player who touches them.

use super::{BodyModel, Entity, PhysicsBody, Rect, RectModel, Vec2};
use crate::config::{COIN_VALUE, COLLECTIBLE_SIZE, GEM_VALUE, POWERUP_VALUE};
use vstd::prelude::*;

verus! {

/// What there is to collect.
#[derive(Clone, Copy, Debug, PartialEq, Eq, Structural)]
pub enum CollectibleType {
    Coin,
    Gem,
    PowerUp,
}

/// What a [`Collectible`] stands for, in exact arithmetic.
pub struct CollectibleModel {
    pub body: BodyModel,
    pub collected: bool,
    pub value: int,
    pub collectible_type: CollectibleType,
    pub animation_time: int,
}

/// A thing to collect: where it is, what it is worth, whether it was
/// collected, and for how long it has been animated.
#[derive(Clone, Copy, Debug, PartialEq, Eq, Structural)]
pub struct Collectible {
    pub body: PhysicsBody,
    pub collected: bool,
    pub value: i32,
    pub collectible_type: CollectibleType,
    pub animation_time: i64,
}

impl CollectibleType {
    /// Points for a collectible of this kind.
    pub open spec fn value_spec(self) -> i32 {
        match self {
            CollectibleType::Coin => COIN_VALUE,
            CollectibleType::Gem => GEM_VALUE,
            CollectibleType::PowerUp => POWERUP_VALUE,
        }
    }
}

impl CollectibleModel {
    /// A collectible of the given kind at `(x, y)`, not collected yet, worth
    /// what its kind is worth.
    pub open spec fn fresh(collectible_type: CollectibleType, x: int, y: int) -> CollectibleModel {
        CollectibleModel {
            body: BodyModel::at_rest(x, y, COLLECTIBLE_SIZE.0 as int, COLLECTIBLE_SIZE.1 as int),
            collected: false,
            value: collectible_type.value_spec() as int,
            collectible_type,
            animation_time: 0,
        }
    }

    /// The points that collecting gives: the value, once.
    pub open spec fn yield_of_collect(self) -> int {
        if self.collected {
            0
        } else {
            self.value
        }
    }

    /// The collectible after it was animated for the time `delta_time` more.
    pub open spec fn animated(self, delta_time: int) -> CollectibleModel {
        CollectibleModel { animation_time: self.animation_time + delta_time, ..self }
    }

    /// The collectible after it was collected.
    pub open spec fn taken(self) -> CollectibleModel {
        CollectibleModel { collected: true, ..self }
    }

    /// Whether a player with the body `player` collects this now: it was not
    /// collected before, and the two overlap.
    pub open spec fn is_reached_by(self, player: BodyModel) -> bool {
        !self.collected && self.body.overlaps(player)
    }

    /// The collectible after a player with the body `player` came by.
    pub open spec fn checked(self, player: BodyModel) -> CollectibleModel {
        if self.is_reached_by(player) {
            self.taken()
        } else {
            self
        }
    }

    /// The points that a player with the body `player` gets from coming by.
    pub open spec fn yield_of_check(self, player: BodyModel) -> int {
        if self.is_reached_by(player) {
            self.value
        } else {
            0
        }
    }
}

impl View for Collectible {
    type V = CollectibleModel;

    open spec fn view(&self) -> CollectibleModel {
        CollectibleModel {
            body: self.body@,
            collected: self.collected,
            value: self.value as int,
            collectible_type: self.collectible_type,
            animation_time: self.animation_time as int,
        }
    }
}

impl Collectible {
    /// A collectible of the given kind at `(x, y)`, 16 pixels wide and high,
    /// not collected yet, worth what its kind is worth.
    pub fn new(x: i64, y: i64, collectible_type: CollectibleType) -> (r: Collectible)
        ensures
            r@ == CollectibleModel::fresh(collectible_type, x as int, y as int),
    {
        let value = match collectible_type {
            CollectibleType::Coin => COIN_VALUE,
            CollectibleType::Gem => GEM_VALUE,
            CollectibleType::PowerUp => POWERUP_VALUE,
        };
        Collectible {
            body: PhysicsBody::new(x, y, COLLECTIBLE_SIZE.0, COLLECTIBLE_SIZE.1),
            collected: false,
            value,
            collectible_type,
            animation_time: 0,
        }
    }

    /// A coin at `(x, y)`.
    pub fn new_coin(x: i64, y: i64) -> (r: Collectible)
        ensures
            r@ == CollectibleModel::fresh(CollectibleType::Coin, x as int, y as int),
    {
        Self::new(x, y, CollectibleType::Coin)
    }

    /// A gem at `(x, y)`.
    pub fn new_gem(x: i64, y: i64) -> (r: Collectible)
        ensures
            r@ == CollectibleModel::fresh(CollectibleType::Gem, x as int, y as int),
    {
        Self::new(x, y, CollectibleType::Gem)
    }

    /// A power-up at `(x, y)`.
    pub fn new_power_up(x: i64, y: i64) -> (r: Collectible)
        ensures
            r@ == CollectibleModel::fresh(CollectibleType::PowerUp, x as int, y as int),
    {
        Self::new(x, y, CollectibleType::PowerUp)
    }

    /// Collects the collectible and returns the points for it: its value the
    /// first time, nothing after that.
    pub fn collect(&mut self) -> (r: i32)
        ensures
            r == old(self)@.yield_of_collect(),
            final(self)@ == old(self)@.taken(),
    {
        if !self.collected {
            self.collected = true;
            self.value
        } else {
            0
        }
    }

    /// Whether the collectible was collected.
    pub fn is_collected(&self) -> (r: bool)
        ensures
            r == self.collected,
    {
        self.collected
    }

    /// Lets a player with the body `player_body` come by: where the
    /// collectible was not collected before and the two overlap, it is
    /// collected now, and its value is returned; else nothing changes, and
    /// the result is zero.
    pub fn check_collection(&mut self, player_body: &PhysicsBody) -> (r: i32)
        requires
            !old(self).collected ==> old(self).body.wf() && player_body.wf(),
        ensures
            r == old(self)@.yield_of_check(player_body@),
            final(self)@ == old(self)@.checked(player_body@),
    {
        if !self.collected && self.body.overlaps_with(player_body) {
            self.collect()
        } else {
            0
        }
    }

    /// The box that the collectible occupies: left, top, right and bottom
    /// edge.
    pub fn get_bounds(&self) -> (r: Rect)
        requires
            self.body.wf(),
        ensures
            RectModel::of(r) == self@.body.bounds(),
    {
        self.body.get_bounds()
    }
}

impl Entity for Collectible {
    open spec fn body_model(&self) -> BodyModel {
        self@.body
    }

    open spec fn can_update(&self, delta_time: int) -> bool {
        i64::MIN <= self.animation_time + delta_time <= i64::MAX
    }

    open spec fn is_updated(&self, delta_time: int, after: &Self) -> bool {
        after@ == self@.animated(delta_time)
    }

    fn position(&self) -> (r: Vec2) {
        self.body.position
    }

    fn size(&self) -> (r: Vec2) {
        self.body.size
    }

    /// The collectible has been animated for the time `delta_time` longer.
    fn update(&mut self, delta_time: i64) {
        self.animation_time = self.animation_time + delta_time;
    }
}

} // verus!
