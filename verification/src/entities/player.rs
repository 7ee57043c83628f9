//! The player: a body that runs and jumps.

use super::{BodyModel, Entity, PhysicsBody, Vec2, Vec2Model};
use crate::config::{
    FRICTION, PLAYER_JUMP_FORCE, PLAYER_MAX_JUMPS, PLAYER_MOVE_SPEED, PLAYER_SIZE,
};
use crate::fixed::{in_limit, mul_scaled, scale_mul, LIMIT};
use vstd::prelude::*;

verus! {

/// Horizontal speed below which the player stops, in thousandths of a pixel
/// per second.
pub const STOP_SPEED: i64 = 1000;

/// What a [`Player`] stands for, in exact arithmetic.
pub struct PlayerModel {
    pub body: BodyModel,
    pub move_speed: int,
    pub jump_force: int,
    pub max_jump_count: int,
    pub current_jump_count: int,
}

/// The player: its body, how fast it runs, how hard it jumps, and how many
/// jumps it has made since it last stood on the ground.
#[derive(Clone, Copy, Debug, PartialEq, Eq, Structural)]
pub struct Player {
    pub body: PhysicsBody,
    pub move_speed: i64,
    pub jump_force: i64,
    pub max_jump_count: u32,
    pub current_jump_count: u32,
}

impl PlayerModel {
    /// A player at rest at `(x, y)`, with the size, speed, jump force and
    /// number of jumps of the game's constants, and no jump made.
    pub open spec fn spawned(x: int, y: int) -> PlayerModel {
        PlayerModel {
            body: BodyModel::at_rest(x, y, PLAYER_SIZE.0 as int, PLAYER_SIZE.1 as int),
            move_speed: PLAYER_MOVE_SPEED as int,
            jump_force: PLAYER_JUMP_FORCE as int,
            max_jump_count: PLAYER_MAX_JUMPS as int,
            current_jump_count: 0,
        }
    }

    /// Whether the player is one that the simulation accepts: its body is, and
    /// its running speed and jump force are within the limit for factors.
    pub open spec fn wf(self) -> bool {
        &&& self.body.wf()
        &&& in_limit(self.move_speed)
        &&& in_limit(self.jump_force)
    }

    /// The same player with another body.
    pub open spec fn with_body(self, body: BodyModel) -> PlayerModel {
        PlayerModel { body, ..self }
    }

    /// The player running with the horizontal velocity `speed`.
    pub open spec fn running(self, speed: int) -> PlayerModel {
        self.with_body(
            BodyModel { velocity: Vec2Model { x: speed, y: self.body.velocity.y }, ..self.body },
        )
    }

    /// Whether the player has a jump left.
    pub open spec fn can_jump(self) -> bool {
        self.current_jump_count < self.max_jump_count
    }

    /// The player after an attempt to jump: with a jump left it leaves the
    /// ground with its jump force as vertical velocity, and has one jump less;
    /// without, nothing changes.
    pub open spec fn jumped(self) -> PlayerModel {
        if self.can_jump() {
            PlayerModel {
                body: BodyModel {
                    velocity: Vec2Model { x: self.body.velocity.x, y: self.jump_force },
                    on_ground: false,
                    ..self.body
                },
                current_jump_count: self.current_jump_count + 1,
                ..self
            }
        } else {
            self
        }
    }

    /// The player after it was told whether it stands on the ground: standing
    /// gives it all its jumps back.
    pub open spec fn grounded(self, on_ground: bool) -> PlayerModel {
        PlayerModel {
            body: BodyModel { on_ground, ..self.body },
            current_jump_count: if on_ground {
                0
            } else {
                self.current_jump_count
            },
            ..self
        }
    }

    /// The horizontal velocity `speed` a frame later: what friction leaves of
    /// it, or nothing where that is slower than [`STOP_SPEED`].
    pub open spec fn slowed_speed(speed: int) -> int {
        let kept = mul_scaled(speed, FRICTION as int);
        if -STOP_SPEED < kept < STOP_SPEED {
            0
        } else {
            kept
        }
    }

    /// The player a frame later, as far as it changes by itself: friction
    /// slows its run.
    pub open spec fn updated(self) -> PlayerModel {
        self.running(Self::slowed_speed(self.body.velocity.x))
    }
}

impl View for Player {
    type V = PlayerModel;

    open spec fn view(&self) -> PlayerModel {
        PlayerModel {
            body: self.body@,
            move_speed: self.move_speed as int,
            jump_force: self.jump_force as int,
            max_jump_count: self.max_jump_count as int,
            current_jump_count: self.current_jump_count as int,
        }
    }
}

impl Player {
    /// Whether the player is one that the simulation accepts; see
    /// [`PlayerModel::wf`].
    pub open spec fn wf(&self) -> bool {
        self@.wf()
    }

    /// A player at rest at `(x, y)`: 32 pixels wide and high, running at 200
    /// pixels per second, jumping upward at 400, with two jumps in the air.
    pub fn new(x: i64, y: i64) -> (r: Player)
        ensures
            r@ == PlayerModel::spawned(x as int, y as int),
    {
        Player {
            body: PhysicsBody::new(x, y, PLAYER_SIZE.0, PLAYER_SIZE.1),
            move_speed: PLAYER_MOVE_SPEED,
            jump_force: PLAYER_JUMP_FORCE,
            max_jump_count: PLAYER_MAX_JUMPS,
            current_jump_count: 0,
        }
    }

    /// Whether the player is one that the simulation accepts.
    pub fn is_well_formed(&self) -> (r: bool)
        ensures
            r == self.wf(),
    {
        self.body.is_well_formed() && -LIMIT <= self.move_speed && self.move_speed <= LIMIT
            && -LIMIT <= self.jump_force && self.jump_force <= LIMIT
    }

    /// Sets the player running to the left at its running speed.
    pub fn move_left(&mut self)
        requires
            in_limit(old(self).move_speed as int),
        ensures
            final(self)@ == old(self)@.running(-old(self)@.move_speed),
    {
        self.body.velocity.x = -self.move_speed;
    }

    /// Sets the player running to the right at its running speed.
    pub fn move_right(&mut self)
        ensures
            final(self)@ == old(self)@.running(old(self)@.move_speed),
    {
        self.body.velocity.x = self.move_speed;
    }

    /// Makes the player jump, if it has a jump left.
    pub fn jump(&mut self)
        ensures
            final(self)@ == old(self)@.jumped(),
    {
        if self.current_jump_count < self.max_jump_count {
            self.body.velocity.y = self.jump_force;
            self.current_jump_count += 1;
            self.body.on_ground = false;
        }
    }

    /// Gives the player all its jumps back.
    pub fn reset_jump(&mut self)
        ensures
            final(self)@ == (PlayerModel { current_jump_count: 0, ..old(self)@ }),
    {
        self.current_jump_count = 0;
    }

    /// Tells the player whether it stands on the ground. Standing gives it
    /// all its jumps back.
    pub fn set_on_ground(&mut self, on_ground: bool)
        ensures
            final(self)@ == old(self)@.grounded(on_ground),
    {
        self.body.on_ground = on_ground;
        if on_ground {
            self.reset_jump();
        }
    }

    /// Where the player is: the upper left corner of its box.
    pub fn position(&self) -> (r: Vec2)
        ensures
            r == self.body.position,
    {
        self.body.position
    }

    /// Width and height of the player.
    pub fn size(&self) -> (r: Vec2)
        ensures
            r == self.body.size,
    {
        self.body.size
    }

    /// How fast the player moves.
    pub fn velocity(&self) -> (r: Vec2)
        ensures
            r == self.body.velocity,
    {
        self.body.velocity
    }

    /// Gives the player another velocity.
    pub fn set_velocity(&mut self, velocity: Vec2)
        ensures
            final(self)@ == old(self)@.with_body(
                BodyModel { velocity: velocity@, ..old(self)@.body },
            ),
    {
        self.body.velocity = velocity;
    }

    /// Puts the player at another place.
    pub fn set_position(&mut self, position: Vec2)
        ensures
            final(self)@ == old(self)@.with_body(old(self)@.body.moved_to(position@)),
    {
        self.body.position = position;
    }

    /// Whether the player stands on the ground.
    pub fn is_on_ground(&self) -> (r: bool)
        ensures
            r == self.body.on_ground,
    {
        self.body.on_ground
    }

    /// Lets a frame pass for the player by itself: friction takes a fifth of
    /// its horizontal velocity, and a run slower than a pixel per second stops.
    pub fn update(&mut self)
        requires
            in_limit(old(self).body.velocity.x as int),
        ensures
            final(self)@ == old(self)@.updated(),
    {
        self.body.velocity.x = scale_mul(self.body.velocity.x, FRICTION);
        if -STOP_SPEED < self.body.velocity.x && self.body.velocity.x < STOP_SPEED {
            self.body.velocity.x = 0;
        }
    }
}

impl Entity for Player {
    open spec fn body_model(&self) -> BodyModel {
        self@.body
    }

    open spec fn can_update(&self, delta_time: int) -> bool {
        in_limit(self@.body.velocity.x)
    }

    open spec fn is_updated(&self, delta_time: int, after: &Self) -> bool {
        after@ == self@.updated()
    }

    fn position(&self) -> (r: Vec2) {
        self.body.position
    }

    fn size(&self) -> (r: Vec2) {
        self.body.size
    }

    /// Friction slows the run of the player, however long the frame was.
    fn update(&mut self, delta_time: i64) {
        Player::update(self);
    }
}

} // verus!
