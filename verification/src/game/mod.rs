//! One game: the player, the world around it, and what a frame does to them.
//!
//! The game neither reads the keyboard, nor the clock, nor the size of the
//! screen: each frame it is handed the keys that are held, the time that has
//! passed and the size of the screen, and computes the next state.

use crate::config::{
    DEATH_Y_THRESHOLD, DISTANCE_PER_POINT, GRAVITY, GROUND_HEIGHT, TERMINAL_VELOCITY,
    TIME_SCORE_MULTIPLIER,
};
use crate::entities::collectible::{Collectible, CollectibleModel, CollectibleType};
use crate::entities::platform::{Platform, PlatformModel, PlatformType};
use crate::entities::player::{Player, PlayerModel};
use crate::entities::{BodyModel, Entity, PhysicsBody, Vec2, Vec2Model};
use crate::fixed::{
    div_toward_zero, half, halve, in_limit, in_position_limit, lemma_mul_scaled_bound,
    lemma_mul_scaled_sign, saturate_i32, saturated_i32, LIMIT, POSITION_LIMIT, PRODUCT_LIMIT, SCALE,
};
use crate::input::{held_in_order, InputHandler, Key};
use crate::physics::{fallen, integrated, player_resolved, Physics};
use states::GameState;
use vstd::prelude::*;

pub mod states;

verus! {

/// Where the player starts, from the left edge of the world.
pub const SPAWN_X: i64 = 100_000;

/// How far above the lower edge of the screen the player starts.
pub const SPAWN_HEIGHT: i64 = 100_000;

/// What a [`Game`] stands for, in exact arithmetic.
pub struct GameModel {
    pub state: GameState,
    pub player: PlayerModel,
    pub platforms: Seq<PlatformModel>,
    pub collectibles: Seq<CollectibleModel>,
    pub gravity: int,
    pub terminal_velocity: int,
    pub keys_held: Seq<Key>,
    pub keys_held_before: Seq<Key>,
    pub camera_offset: Vec2Model,
    pub score: int,
    pub time_survived: int,
}

/// One game.
pub struct Game {
    pub state: GameState,
    pub player: Player,
    pub platforms: Vec<Platform>,
    pub collectibles: Vec<Collectible>,
    pub physics: Physics,
    pub input: InputHandler,
    pub camera_offset: Vec2,
    pub score: i32,
    pub time_survived: i64,
}

/// Whether a body is one that the simulation accepts and lies so far inside
/// the world that a frame cannot take it out of reach.
pub open spec fn in_world(body: BodyModel) -> bool {
    body.wf() && body.position.in_limit()
}

/// Whether a collectible can be animated and collected: its body is one that
/// the simulation accepts, and its clock is within its limit.
pub open spec fn is_ready(collectible: CollectibleModel) -> bool {
    collectible.body.wf() && in_position_limit(collectible.animation_time)
}

/// Whether a body is one that the simulation accepts and lies where a frame
/// can take a body from inside the world.
pub open spec fn in_reach(body: BodyModel) -> bool {
    &&& body.wf()
    &&& -LIMIT - PRODUCT_LIMIT <= body.position.x <= LIMIT + PRODUCT_LIMIT
    &&& -LIMIT - PRODUCT_LIMIT <= body.position.y <= LIMIT + PRODUCT_LIMIT
}

/// The player after its collisions with the platforms were resolved, one
/// platform after the other in their order. A later platform sees the player
/// where the earlier ones have put it.
pub open spec fn resolved_against_all(
    player: PlayerModel,
    platforms: Seq<PlatformModel>,
) -> PlayerModel
    decreases platforms.len(),
{
    if platforms.len() == 0 {
        player
    } else {
        player_resolved(
            resolved_against_all(player, platforms.drop_last()),
            platforms.last().body,
        )
    }
}

/// The score of a player at the horizontal position `x` who has survived for
/// the time `time_survived`: a point for every ten pixels and ten for every
/// whole second, each part and their sum held to what an `i32` can hold.
pub open spec fn score_of(x: int, time_survived: int) -> int {
    saturated_i32(
        saturated_i32(div_toward_zero(x, DISTANCE_PER_POINT as int)) + saturated_i32(
            div_toward_zero(time_survived, SCALE as int),
        ) * TIME_SCORE_MULTIPLIER,
    )
}

/// The camera that follows a player at `position` on a screen of the width
/// `screen_width`: the player is in the middle, the height is fixed.
pub open spec fn camera_following(position: Vec2Model, screen_width: int) -> Vec2Model {
    Vec2Model { x: position.x - half(screen_width), y: 0 }
}

/// The platforms of a new game on a screen of the given size.
pub open spec fn initial_platforms(screen_width: int, screen_height: int) -> Seq<PlatformModel> {
    seq![
        PlatformModel::of_kind(
            PlatformType::Ground,
            0,
            screen_height - GROUND_HEIGHT,
            screen_width,
            GROUND_HEIGHT as int,
        ),
        PlatformModel::of_kind(PlatformType::Normal, 200_000, screen_height - 120_000, 200_000, 20_000),
        PlatformModel::of_kind(PlatformType::Normal, 500_000, screen_height - 200_000, 150_000, 20_000),
        PlatformModel::of_kind(PlatformType::Normal, 750_000, screen_height - 280_000, 200_000, 20_000),
    ]
}

/// The collectibles of a new game on a screen of the given height.
pub open spec fn initial_collectibles(screen_height: int) -> Seq<CollectibleModel> {
    seq![
        CollectibleModel::fresh(CollectibleType::Coin, 150_000, screen_height - 160_000),
        CollectibleModel::fresh(CollectibleType::Coin, 300_000, screen_height - 160_000),
        CollectibleModel::fresh(CollectibleType::Gem, 550_000, screen_height - 240_000),
        CollectibleModel::fresh(CollectibleType::Coin, 800_000, screen_height - 320_000),
        CollectibleModel::fresh(CollectibleType::PowerUp, 900_000, screen_height - 320_000),
        CollectibleModel::fresh(CollectibleType::Coin, 1_200_000, screen_height - 80_000),
    ]
}

impl GameModel {
    /// Whether a frame can be computed from this state: player and platforms
    /// lie inside the world, the collectibles are bodies that the simulation
    /// accepts, gravity pulls downward or not at all, and the running speed,
    /// the constants of the integrator and the clocks are within their limits.
    pub open spec fn wf(self) -> bool {
        &&& self.player.wf()
        &&& in_world(self.player.body)
        &&& forall|i: int| 0 <= i < self.platforms.len() ==> in_world(#[trigger] self.platforms[i].body)
        &&& forall|i: int|
            0 <= i < self.collectibles.len() ==> is_ready(#[trigger] self.collectibles[i])
        &&& 0 <= self.gravity <= LIMIT
        &&& in_limit(self.terminal_velocity)
        &&& in_position_limit(self.time_survived)
    }

    /// A new game on a screen of the given size.
    pub open spec fn initial(screen_width: int, screen_height: int) -> GameModel {
        GameModel {
            state: GameState::Playing,
            player: PlayerModel::spawned(SPAWN_X as int, screen_height - SPAWN_HEIGHT),
            platforms: initial_platforms(screen_width, screen_height),
            collectibles: initial_collectibles(screen_height),
            gravity: GRAVITY as int,
            terminal_velocity: TERMINAL_VELOCITY as int,
            keys_held: Seq::empty(),
            keys_held_before: Seq::empty(),
            camera_offset: Vec2Model { x: 0, y: 0 },
            score: 0,
            time_survived: 0,
        }
    }

    /// Whether `key` is held in this frame.
    pub open spec fn key_down(self, key: Key) -> bool {
        self.keys_held.contains(key)
    }

    /// Whether `key` was pressed in this frame.
    pub open spec fn key_pressed(self, key: Key) -> bool {
        self.keys_held.contains(key) && !self.keys_held_before.contains(key)
    }

    /// The game at the begin of a frame in which the keys `held` are held.
    pub open spec fn with_keys(self, held: Seq<Key>) -> GameModel {
        GameModel { keys_held: held_in_order(held), keys_held_before: self.keys_held, ..self }
    }

    /// The game started again on a screen of the given height: a new player
    /// at the start, nothing collected, score and clock at zero. The world and
    /// the key states stay.
    pub open spec fn restarted(self, screen_height: int) -> GameModel {
        GameModel {
            state: GameState::Playing,
            player: PlayerModel::spawned(SPAWN_X as int, screen_height - SPAWN_HEIGHT),
            collectibles: Seq::new(
                self.collectibles.len(),
                |i: int| CollectibleModel { collected: false, ..self.collectibles[i] },
            ),
            camera_offset: Vec2Model { x: 0, y: 0 },
            score: 0,
            time_survived: 0,
            ..self
        }
    }

    /// The player after the keys of this frame have acted on it: running left
    /// while a key for left is held, right while one for right is (right wins
    /// where both are), and jumping where a key for it was pressed.
    pub open spec fn steered_player(self) -> PlayerModel {
        let after_left = if self.key_down(Key::A) || self.key_down(Key::Left) {
            self.player.running(-self.player.move_speed)
        } else {
            self.player
        };
        let after_right = if self.key_down(Key::D) || self.key_down(Key::Right) {
            after_left.running(after_left.move_speed)
        } else {
            after_left
        };
        if self.key_pressed(Key::Space) || self.key_pressed(Key::W) || self.key_pressed(Key::Up) {
            after_right.jumped()
        } else {
            after_right
        }
    }

    /// The game after the keys `held` of a frame were handled. While playing
    /// they steer the player, and `R` starts the game again; when the game is
    /// over, space or enter starts it again.
    pub open spec fn after_input(self, held: Seq<Key>, screen_height: int) -> GameModel {
        let game = self.with_keys(held);
        match game.state {
            GameState::Playing => {
                let steered = GameModel { player: game.steered_player(), ..game };
                if game.key_pressed(Key::R) {
                    steered.restarted(screen_height)
                } else {
                    steered
                }
            },
            GameState::GameOver => {
                if game.key_pressed(Key::Space) || game.key_pressed(Key::Enter) {
                    game.restarted(screen_height)
                } else {
                    game
                }
            },
        }
    }

    /// The player after gravity acted on it, it moved for the time
    /// `delta_time`, and friction slowed its run, before any collision.
    pub open spec fn moved_player(self, delta_time: int) -> PlayerModel {
        let falling = self.player.with_body(
            fallen(self.player.body, self.gravity, self.terminal_velocity, delta_time),
        );
        falling.with_body(integrated(falling.body, delta_time)).updated()
    }

    /// The player after a frame of the duration `delta_time`: gravity first,
    /// then the motion, then friction, then the collisions with the platforms
    /// in their order.
    pub open spec fn player_after_frame(self, delta_time: int) -> PlayerModel {
        resolved_against_all(self.moved_player(delta_time), self.platforms)
    }

    /// The game after a frame of the duration `delta_time` on a screen of the
    /// given size. A game that is over stays as it is. A running game moves
    /// the player, lets it collect what it then overlaps, points the camera at
    /// it, computes the score from how far it got and how long it survived,
    /// and is over once the player has fallen further below the screen than
    /// [`DEATH_Y_THRESHOLD`].
    pub open spec fn updated(self, delta_time: int, screen_width: int, screen_height: int) -> GameModel {
        match self.state {
            GameState::GameOver => self,
            GameState::Playing => {
                let player = self.player_after_frame(delta_time);
                let time_survived = self.time_survived + delta_time;
                GameModel {
                    state: if player.body.position.y > screen_height + DEATH_Y_THRESHOLD {
                        GameState::GameOver
                    } else {
                        GameState::Playing
                    },
                    player,
                    collectibles: Seq::new(
                        self.collectibles.len(),
                        |i: int| self.collectibles[i].animated(delta_time).checked(player.body),
                    ),
                    camera_offset: camera_following(player.body.position, screen_width),
                    score: score_of(player.body.position.x, time_survived),
                    time_survived,
                    ..self
                }
            },
        }
    }
}

impl View for Game {
    type V = GameModel;

    open spec fn view(&self) -> GameModel {
        GameModel {
            state: self.state,
            player: self.player@,
            platforms: self.platforms@.map_values(|p: Platform| p@),
            collectibles: self.collectibles@.map_values(|c: Collectible| c@),
            gravity: self.physics.gravity as int,
            terminal_velocity: self.physics.terminal_velocity as int,
            keys_held: self.input.current(),
            keys_held_before: self.input.previous(),
            camera_offset: self.camera_offset@,
            score: self.score as int,
            time_survived: self.time_survived as int,
        }
    }
}

impl Game {
    /// Whether a frame can be computed from this state; see [`GameModel::wf`].
    pub open spec fn wf(&self) -> bool {
        self@.wf()
    }

    /// A new game on a screen of the given size: the player at the start, the
    /// ground and three platforms, six things to collect.
    pub fn new(screen_width: i64, screen_height: i64) -> (r: Game)
        requires
            in_limit(screen_width as int),
            in_limit(screen_height as int),
        ensures
            r@ == GameModel::initial(screen_width as int, screen_height as int),
    {
        let mut platforms: Vec<Platform> = Vec::new();
        platforms.push(
            Platform::new_ground(0, screen_height - GROUND_HEIGHT, screen_width, GROUND_HEIGHT),
        );
        platforms.push(Platform::new(200_000, screen_height - 120_000, 200_000, 20_000));
        platforms.push(Platform::new(500_000, screen_height - 200_000, 150_000, 20_000));
        platforms.push(Platform::new(750_000, screen_height - 280_000, 200_000, 20_000));
        let mut collectibles: Vec<Collectible> = Vec::new();
        collectibles.push(Collectible::new_coin(150_000, screen_height - 160_000));
        collectibles.push(Collectible::new_coin(300_000, screen_height - 160_000));
        collectibles.push(Collectible::new_gem(550_000, screen_height - 240_000));
        collectibles.push(Collectible::new_coin(800_000, screen_height - 320_000));
        collectibles.push(Collectible::new_power_up(900_000, screen_height - 320_000));
        collectibles.push(Collectible::new_coin(1_200_000, screen_height - 80_000));
        let game = Game {
            state: GameState::Playing,
            player: Player::new(SPAWN_X, screen_height - SPAWN_HEIGHT),
            platforms,
            collectibles,
            physics: Physics::new(),
            input: InputHandler::new(),
            camera_offset: Vec2::zero(),
            score: 0,
            time_survived: 0,
        };
        assert(game@.platforms =~= initial_platforms(screen_width as int, screen_height as int));
        assert(game@.collectibles =~= initial_collectibles(screen_height as int));
        game
    }

    /// Whether a frame can be computed from this state.
    pub fn is_well_formed(&self) -> (r: bool)
        ensures
            r == self.wf(),
    {
        if !(self.player.is_well_formed() && self.player.body.position.is_in_limit()) {
            return false;
        }
        if !(0 <= self.physics.gravity && self.physics.gravity <= LIMIT && -LIMIT
            <= self.physics.terminal_velocity && self.physics.terminal_velocity <= LIMIT) {
            return false;
        }
        if !(-POSITION_LIMIT <= self.time_survived && self.time_survived <= POSITION_LIMIT) {
            return false;
        }
        let mut i: usize = 0;
        while i < self.platforms.len()
            invariant
                i <= self.platforms.len(),
                forall|k: int| 0 <= k < i ==> in_world(#[trigger] self@.platforms[k].body),
            decreases self.platforms.len() - i,
        {
            let body = &self.platforms[i].body;
            if !(body.is_well_formed() && body.position.is_in_limit()) {
                assert(!in_world(self@.platforms[i as int].body));
                return false;
            }
            i += 1;
        }
        let mut j: usize = 0;
        while j < self.collectibles.len()
            invariant
                j <= self.collectibles.len(),
                forall|k: int| 0 <= k < j ==> is_ready(#[trigger] self@.collectibles[k]),
            decreases self.collectibles.len() - j,
        {
            let collectible = &self.collectibles[j];
            if !(collectible.body.is_well_formed() && -POSITION_LIMIT <= collectible.animation_time
                && collectible.animation_time <= POSITION_LIMIT) {
                assert(!is_ready(self@.collectibles[j as int]));
                return false;
            }
            j += 1;
        }
        true
    }

    /// Handles the keys `held` of a frame. While the game runs they steer the
    /// player: a key for left or right makes it run, a key for jumping that
    /// was pressed in this frame makes it jump, and `R` starts the game
    /// again. When the game is over, space or enter starts it again.
    pub fn handle_input(&mut self, held: &Vec<Key>, screen_height: i64)
        requires
            in_limit(old(self).player.move_speed as int),
            in_limit(screen_height as int),
        ensures
            final(self)@ == old(self)@.after_input(held@, screen_height as int),
    {
        self.input.update(held);
        match self.state {
            GameState::Playing => {
                if self.input.is_key_down(Key::A) || self.input.is_key_down(Key::Left) {
                    self.player.move_left();
                }
                if self.input.is_key_down(Key::D) || self.input.is_key_down(Key::Right) {
                    self.player.move_right();
                }
                if self.input.is_key_pressed(Key::Space) || self.input.is_key_pressed(Key::W)
                    || self.input.is_key_pressed(Key::Up) {
                    self.player.jump();
                }
                if self.input.is_key_pressed(Key::R) {
                    self.reset_game(screen_height);
                }
            },
            GameState::GameOver => {
                if self.input.is_key_pressed(Key::Space) || self.input.is_key_pressed(Key::Enter) {
                    self.reset_game(screen_height);
                }
            },
        }
    }

    /// Computes a frame of the duration `delta_time` on a screen of the given
    /// size. A game that is over stays as it is. In a running game gravity
    /// acts on the player, the player moves, friction slows its run, and its
    /// collisions with the
    /// platforms are resolved in their order; then it collects what it
    /// overlaps, the camera is pointed at it, and the score is computed from
    /// where it is and how long it has survived: what it has collected does
    /// not count. The game is over once the player has fallen out of the
    /// screen.
    pub fn update(&mut self, delta_time: i64, screen_width: i64, screen_height: i64)
        requires
            old(self).wf(),
            0 <= delta_time <= LIMIT,
            in_limit(screen_width as int),
            in_limit(screen_height as int),
        ensures
            final(self)@ == old(self)@.updated(
                delta_time as int,
                screen_width as int,
                screen_height as int,
            ),
    {
        match self.state {
            GameState::Playing => {
                self.time_survived = self.time_survived + delta_time;
                let physics = self.physics;
                proof {
                    lemma_moved_player_in_reach(old(self)@, delta_time as int);
                    assert forall|i: int| 0 <= i < self.platforms.len() implies in_world(
                        #[trigger] self.platforms@[i]@.body,
                    ) by {
                        assert(old(self)@.platforms[i] == self.platforms@[i]@);
                    }
                    assert forall|i: int| 0 <= i < self.collectibles.len() implies is_ready(
                        (#[trigger] self.collectibles@[i])@,
                    ) by {
                        assert(old(self)@.collectibles[i] == self.collectibles@[i]@);
                    }
                }
                physics.apply_gravity(&mut self.player, delta_time);
                physics.update_position(&mut self.player, delta_time);
                self.player.update();
                resolve_all(&physics, &mut self.player, &self.platforms);
                animate_and_collect(&mut self.collectibles, &self.player.body, delta_time);
                self.update_camera(screen_width);
                let distance_score = saturate_i32(self.player.position().x / DISTANCE_PER_POINT);
                let time_score = saturate_i32(self.time_survived / SCALE);
                self.score = saturate_i32(
                    distance_score as i64 + time_score as i64 * (TIME_SCORE_MULTIPLIER as i64),
                );
                if self.player.position().y > screen_height + DEATH_Y_THRESHOLD {
                    self.state = GameState::GameOver;
                }
                assert(self@.collectibles =~= old(self)@.updated(
                    delta_time as int,
                    screen_width as int,
                    screen_height as int,
                ).collectibles);
            },
            GameState::GameOver => {},
        }
    }

    /// Points the camera at the player: the player is in the middle of a
    /// screen of the width `screen_width`, the height is fixed.
    fn update_camera(&mut self, screen_width: i64)
        requires
            in_reach(old(self).player.body@),
            in_limit(screen_width as int),
        ensures
            final(self)@ == (GameModel {
                camera_offset: camera_following(
                    old(self)@.player.body.position,
                    screen_width as int,
                ),
                ..old(self)@
            }),
    {
        let target_x: i64 = self.player.position().x - halve(screen_width);
        self.camera_offset.x = target_x;
        self.camera_offset.y = 0;
    }

    /// Starts the game again on a screen of the height `screen_height`.
    fn reset_game(&mut self, screen_height: i64)
        requires
            in_limit(screen_height as int),
        ensures
            final(self)@ == old(self)@.restarted(screen_height as int),
    {
        self.state = GameState::Playing;
        self.player = Player::new(SPAWN_X, screen_height - SPAWN_HEIGHT);
        self.camera_offset = Vec2::zero();
        self.score = 0;
        self.time_survived = 0;
        let mut i: usize = 0;
        while i < self.collectibles.len()
            invariant
                i <= self.collectibles.len(),
                self.collectibles.len() == old(self).collectibles.len(),
                forall|k: int|
                    0 <= k < i ==> (#[trigger] self.collectibles@[k])@ == (CollectibleModel {
                        collected: false,
                        ..old(self).collectibles@[k]@
                    }),
                forall|k: int|
                    i <= k < self.collectibles.len() ==> #[trigger] self.collectibles@[k] == old(
                        self,
                    ).collectibles@[k],
                self.state == GameState::Playing,
                self.player@ == PlayerModel::spawned(SPAWN_X as int, screen_height - SPAWN_HEIGHT),
                self.camera_offset@ == (Vec2Model { x: 0, y: 0 }),
                self.score == 0,
                self.time_survived == 0,
                self.platforms == old(self).platforms,
                self.physics == old(self).physics,
                self.input == old(self).input,
            decreases self.collectibles.len() - i,
        {
            let mut collectible = self.collectibles[i];
            collectible.collected = false;
            self.collectibles.set(i, collectible);
            i += 1;
        }
        assert(self@.collectibles =~= old(self)@.restarted(screen_height as int).collectibles);
        assert(self@.platforms =~= old(self)@.platforms);
    }
}

/// Resolves the collisions of the player with the platforms, one after the
/// other in their order.
fn resolve_all(physics: &Physics, player: &mut Player, platforms: &Vec<Platform>)
    requires
        in_reach(old(player)@.body),
        forall|i: int| 0 <= i < platforms.len() ==> in_world(#[trigger] platforms@[i]@.body),
    ensures
        final(player)@ == resolved_against_all(
            old(player)@,
            platforms@.map_values(|p: Platform| p@),
        ),
        in_reach(final(player)@.body),
{
    let ghost models = platforms@.map_values(|p: Platform| p@);
    let mut i: usize = 0;
    assert(models.take(0) =~= Seq::<PlatformModel>::empty());
    while i < platforms.len()
        invariant
            i <= platforms.len(),
            models == platforms@.map_values(|p: Platform| p@),
            forall|k: int| 0 <= k < platforms.len() ==> in_world(#[trigger] platforms@[k]@.body),
            in_reach(player@.body),
            player@ == resolved_against_all(old(player)@, models.take(i as int)),
        decreases platforms.len() - i,
    {
        proof {
            assert(models.take(i + 1).drop_last() =~= models.take(i as int));
            assert(models.take(i + 1).last() == platforms@[i as int]@);
            assert(in_world(platforms@[i as int]@.body));
        }
        physics.check_collision(player, &platforms[i]);
        i += 1;
    }
    assert(models.take(i as int) =~= models);
}

/// Lets the time `delta_time` pass for each collectible, and lets a player
/// with the body `player_body` collect those that it overlaps.
fn animate_and_collect(
    collectibles: &mut Vec<Collectible>,
    player_body: &PhysicsBody,
    delta_time: i64,
)
    requires
        player_body.wf(),
        in_limit(delta_time as int),
        forall|i: int|
            0 <= i < old(collectibles).len() ==> is_ready((#[trigger] old(collectibles)@[i])@),
    ensures
        final(collectibles).len() == old(collectibles).len(),
        forall|i: int|
            0 <= i < old(collectibles).len() ==> (#[trigger] final(collectibles)@[i])@ == old(
                collectibles,
            )@[i]@.animated(delta_time as int).checked(player_body@),
{
    let mut i: usize = 0;
    while i < collectibles.len()
        invariant
            i <= collectibles.len(),
            collectibles.len() == old(collectibles).len(),
            player_body.wf(),
            in_limit(delta_time as int),
            forall|k: int|
                0 <= k < i ==> (#[trigger] collectibles@[k])@ == old(collectibles)@[k]@.animated(
                    delta_time as int,
                ).checked(player_body@),
            forall|k: int|
                i <= k < collectibles.len() ==> #[trigger] collectibles@[k] == old(
                    collectibles,
                )@[k],
            forall|k: int|
                0 <= k < old(collectibles).len() ==> is_ready(
                    (#[trigger] old(collectibles)@[k])@,
                ),
        decreases collectibles.len() - i,
    {
        let mut collectible = collectibles[i];
        assert(collectible == old(collectibles)@[i as int]);
        collectible.update(delta_time);
        let _ = collectible.check_collection(player_body);
        collectibles.set(i, collectible);
        i += 1;
    }
}

/// What friction leaves of a speed is no faster than the speed was.
pub proof fn lemma_slowed_speed_bound(speed: int)
    ensures
        speed >= 0 ==> 0 <= PlayerModel::slowed_speed(speed) <= speed,
        speed <= 0 ==> speed <= PlayerModel::slowed_speed(speed) <= 0,
{
    assert(speed * 800 == 800 * speed) by (nonlinear_arith);
    assert((-speed) * 800 == -(speed * 800)) by (nonlinear_arith);
}

/// A frame takes a player from inside the world to a place within reach, and
/// leaves it a player that the simulation accepts: before the collisions, and
/// after them.
pub proof fn lemma_moved_player_in_reach(game: GameModel, delta_time: int)
    requires
        game.wf(),
        0 <= delta_time <= LIMIT,
    ensures
        fallen(game.player.body, game.gravity, game.terminal_velocity, delta_time).wf(),
        in_reach(game.moved_player(delta_time).body),
        in_reach(game.player_after_frame(delta_time).body),
{
    let body = game.player.body;
    lemma_mul_scaled_sign(game.gravity, delta_time);
    lemma_mul_scaled_bound(game.gravity, delta_time);
    let falling = fallen(body, game.gravity, game.terminal_velocity, delta_time);
    assert(falling.velocity.in_limit());
    lemma_mul_scaled_bound(falling.velocity.x, delta_time);
    lemma_mul_scaled_bound(falling.velocity.y, delta_time);
    lemma_slowed_speed_bound(falling.velocity.x);
    lemma_resolved_all_in_reach(game.moved_player(delta_time), game.platforms);
}

/// Resolving collisions with platforms inside the world leaves a player
/// within reach where it was.
pub proof fn lemma_resolved_all_in_reach(player: PlayerModel, platforms: Seq<PlatformModel>)
    requires
        in_reach(player.body),
        forall|i: int| 0 <= i < platforms.len() ==> in_world(#[trigger] platforms[i].body),
    ensures
        in_reach(resolved_against_all(player, platforms).body),
    decreases platforms.len(),
{
    if platforms.len() > 0 {
        lemma_resolved_all_in_reach(player, platforms.drop_last());
        assert(in_world(platforms[platforms.len() - 1].body));
    }
}

/// Resolving collisions changes nothing of a player but its body and the
/// number of jumps it has made.
pub proof fn lemma_resolved_all_keeps_abilities(player: PlayerModel, platforms: Seq<PlatformModel>)
    ensures
        resolved_against_all(player, platforms).move_speed == player.move_speed,
        resolved_against_all(player, platforms).jump_force == player.jump_force,
        resolved_against_all(player, platforms).max_jump_count == player.max_jump_count,
        resolved_against_all(player, platforms).body.size == player.body.size,
        resolved_against_all(player, platforms).body.mass == player.body.mass,
    decreases platforms.len(),
{
    if platforms.len() > 0 {
        lemma_resolved_all_keeps_abilities(player, platforms.drop_last());
    }
}

/// A new game on a screen with a width is one from which a frame can be
/// computed.
pub proof fn lemma_new_game_is_well_formed(screen_width: int, screen_height: int)
    requires
        0 < screen_width <= LIMIT,
        0 <= screen_height <= LIMIT,
    ensures
        GameModel::initial(screen_width, screen_height).wf(),
{
}

/// Handling the keys of a frame leaves a game one from which a frame can be
/// computed.
pub proof fn lemma_input_keeps_well_formed(game: GameModel, held: Seq<Key>, screen_height: int)
    requires
        game.wf(),
        0 <= screen_height <= LIMIT,
    ensures
        game.after_input(held, screen_height).wf(),
{
    let with_keys = game.with_keys(held);
    let steered = GameModel { player: with_keys.steered_player(), ..with_keys };
    assert(steered.wf());
    assert(steered.restarted(screen_height).wf());
    assert(with_keys.restarted(screen_height).wf());
}

/// A frame leaves a game one from which the next frame can be computed,
/// unless it has taken the player out of the world or a clock beyond its
/// limit.
pub proof fn lemma_frame_keeps_well_formed(
    game: GameModel,
    delta_time: int,
    screen_width: int,
    screen_height: int,
)
    requires
        game.wf(),
        0 <= delta_time <= LIMIT,
        game.player_after_frame(delta_time).body.position.in_limit(),
        in_position_limit(game.time_survived + delta_time),
        forall|i: int|
            0 <= i < game.collectibles.len() ==> in_position_limit(
                (#[trigger] game.collectibles[i]).animation_time + delta_time,
            ),
    ensures
        game.updated(delta_time, screen_width, screen_height).wf(),
{
    lemma_moved_player_in_reach(game, delta_time);
    lemma_resolved_all_keeps_abilities(game.moved_player(delta_time), game.platforms);
    let after = game.updated(delta_time, screen_width, screen_height);
    if game.state == GameState::Playing {
        assert forall|i: int| 0 <= i < after.collectibles.len() implies is_ready(
            #[trigger] after.collectibles[i],
        ) by {
            assert(is_ready(game.collectibles[i]));
        }
    }
}

} // verus!
