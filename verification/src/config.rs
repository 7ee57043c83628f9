//! The numbers of the game, in one place. Quantities are fixed-point: see
//! [`crate::fixed`].

use crate::entities::{Vec2, Vec2Model};
use crate::fixed::{div_toward_zero, half, halve, in_limit, mul_scaled, scale_mul, SCALE};
use vstd::prelude::*;

verus! {

/// Speed of a running player, in thousandths of a pixel per second.
pub const PLAYER_MOVE_SPEED: i64 = 200_000;

/// Vertical velocity of a player that starts a jump; upward is negative.
pub const PLAYER_JUMP_FORCE: i64 = -400_000;

/// Width and height of the player.
pub const PLAYER_SIZE: (i64, i64) = (32_000, 32_000);

/// Jumps that a player can make before it has to land.
pub const PLAYER_MAX_JUMPS: u32 = 2;

/// Acceleration of a falling body, in thousandths of a pixel per second
/// squared.
pub const GRAVITY: i64 = 980_000;

/// Fastest that gravity makes a body fall.
pub const TERMINAL_VELOCITY: i64 = 500_000;

/// Share of its horizontal velocity that the player keeps from one frame to
/// the next.
pub const FRICTION: i64 = 800;

/// Height of the ground.
pub const GROUND_HEIGHT: i64 = 40_000;

/// Points for a coin.
pub const COIN_VALUE: i32 = 10;

/// Points for a gem.
pub const GEM_VALUE: i32 = 50;

/// Points for a power-up.
pub const POWERUP_VALUE: i32 = 100;

/// Width and height of a collectible.
pub const COLLECTIBLE_SIZE: (i64, i64) = (16_000, 16_000);

/// Distance, in thousandths of a pixel, that is worth one point.
pub const DISTANCE_PER_POINT: i64 = 10_000;

/// Points for each whole second survived.
pub const TIME_SCORE_MULTIPLIER: i32 = 10;

/// How far below the lower edge of the screen the player may fall before the
/// game is over.
pub const DEATH_Y_THRESHOLD: i64 = 100_000;

/// Width of the world, as a map of it shows it.
pub const WORLD_WIDTH: i64 = 2_000_000;

/// Time for which a press of the jump key is remembered, in thousandths of a
/// second.
pub const INPUT_BUFFER_TIME: i64 = 100;

/// Frames per second that the game aims at.
pub const TARGET_FPS: i32 = 60;

/// Share of [`TARGET_FPS`] that still counts as running well.
pub const GOOD_FPS_SHARE: i64 = 800;

/// Most particles alive at a time.
pub const MAX_PARTICLES: usize = 100;

/// Distance of the text from the upper left corner of the screen.
pub const UI_MARGIN: i64 = 10_000;

/// Distance from one line of text to the next.
pub const UI_LINE_HEIGHT: i64 = 25_000;

/// Score from which on a run earns bronze.
pub const SCORE_THRESHOLD_BRONZE: i32 = 100;

/// Score from which on a run earns silver.
pub const SCORE_THRESHOLD_SILVER: i32 = 500;

/// Score from which on a run earns gold.
pub const SCORE_THRESHOLD_GOLD: i32 = 1000;

/// Seconds after which the game has become a tenth harder.
pub const DIFFICULTY_PERIOD: i64 = 60;

/// What the game becomes harder by in each period.
pub const DIFFICULTY_STEP: i64 = 100;

/// Where the numbers of the game are asked for.
#[derive(Clone, Copy, Debug, PartialEq, Eq, Structural)]
pub struct GameConfig;

/// The three degrees of difficulty.
#[derive(Clone, Copy, Debug, PartialEq, Eq, Structural)]
pub struct DifficultyPresets;

/// What a degree of difficulty changes.
#[derive(Clone, Copy, Debug, PartialEq, Eq, Structural)]
pub struct DifficultyConfig {
    pub gravity: i64,
    pub jump_force: i64,
    pub move_speed: i64,
    pub max_jumps: u32,
}

/// How much harder the game is after the time `time_survived`: one, and a
/// tenth more for each minute.
pub open spec fn difficulty_multiplier(time_survived: int) -> int {
    SCALE + mul_scaled(
        div_toward_zero(time_survived, DIFFICULTY_PERIOD as int),
        DIFFICULTY_STEP as int,
    )
}

impl GameConfig {
    /// Middle of a screen of the given size.
    pub fn screen_center(screen_width: i64, screen_height: i64) -> (r: Vec2)
        ensures
            r@ == (Vec2Model { x: half(screen_width as int), y: half(screen_height as int) }),
    {
        Vec2::new(halve(screen_width), halve(screen_height))
    }

    /// Height at which the ground begins on a screen of the given height.
    pub fn ground_y(screen_height: i64) -> (r: i64)
        requires
            screen_height - GROUND_HEIGHT >= i64::MIN,
        ensures
            r == screen_height - GROUND_HEIGHT,
    {
        screen_height - GROUND_HEIGHT
    }

    /// Height below which the player is lost on a screen of the given height.
    pub fn death_threshold(screen_height: i64) -> (r: i64)
        requires
            screen_height + DEATH_Y_THRESHOLD <= i64::MAX,
        ensures
            r == screen_height + DEATH_Y_THRESHOLD,
    {
        screen_height + DEATH_Y_THRESHOLD
    }

    /// Where the player stands at the start on a screen of the given height:
    /// on the ground, a hundred pixels from the left.
    pub fn player_spawn_position(screen_height: i64) -> (r: Vec2)
        requires
            screen_height - GROUND_HEIGHT - PLAYER_SIZE.1 >= i64::MIN,
        ensures
            r@ == (Vec2Model { x: 100_000, y: screen_height - GROUND_HEIGHT - PLAYER_SIZE.1 }),
    {
        Vec2::new(100_000, Self::ground_y(screen_height) - PLAYER_SIZE.1)
    }

    /// Where line number `line` of the text begins.
    pub fn ui_position(line: i32) -> (r: Vec2)
        ensures
            r@ == (Vec2Model { x: UI_MARGIN as int, y: UI_MARGIN + line * UI_LINE_HEIGHT }),
    {
        Vec2::new(UI_MARGIN, UI_MARGIN + (line as i64) * UI_LINE_HEIGHT)
    }

    /// How much harder the game is after the time `time_survived`: one, and a
    /// tenth more for each minute.
    pub fn get_difficulty_multiplier(time_survived: i64) -> (r: i64)
        requires
            in_limit(time_survived as int),
        ensures
            r == difficulty_multiplier(time_survived as int),
    {
        SCALE + scale_mul(time_survived / DIFFICULTY_PERIOD, DIFFICULTY_STEP)
    }

    /// Whether a game that draws `fps` frames a second runs well: at four
    /// fifths of [`TARGET_FPS`] or faster.
    pub fn is_performance_good(fps: i32) -> (r: bool)
        ensures
            r == (fps * SCALE >= TARGET_FPS * GOOD_FPS_SHARE),
    {
        (fps as i64) * SCALE >= (TARGET_FPS as i64) * GOOD_FPS_SHARE
    }
}

impl DifficultyPresets {
    /// Easy: four fifths of the gravity, a fifth more jump, a tenth more
    /// speed, and three jumps.
    pub fn easy() -> (r: DifficultyConfig)
        ensures
            r.gravity == mul_scaled(GRAVITY as int, 800) == 784_000,
            r.jump_force == mul_scaled(PLAYER_JUMP_FORCE as int, 1200) == -480_000,
            r.move_speed == mul_scaled(PLAYER_MOVE_SPEED as int, 1100) == 220_000,
            r.max_jumps == 3,
    {
        assert(980_000 * 800 == 784_000_000int && -400_000 * 1200 == -480_000_000int && 200_000
            * 1100 == 220_000_000int);
        DifficultyConfig {
            gravity: scale_mul(GRAVITY, 800),
            jump_force: scale_mul(PLAYER_JUMP_FORCE, 1200),
            move_speed: scale_mul(PLAYER_MOVE_SPEED, 1100),
            max_jumps: 3,
        }
    }

    /// Normal: the numbers of the game as they are.
    pub fn normal() -> (r: DifficultyConfig)
        ensures
            r.gravity == GRAVITY,
            r.jump_force == PLAYER_JUMP_FORCE,
            r.move_speed == PLAYER_MOVE_SPEED,
            r.max_jumps == PLAYER_MAX_JUMPS,
    {
        DifficultyConfig {
            gravity: GRAVITY,
            jump_force: PLAYER_JUMP_FORCE,
            move_speed: PLAYER_MOVE_SPEED,
            max_jumps: PLAYER_MAX_JUMPS,
        }
    }

    /// Hard: a fifth more gravity, a tenth less jump and speed, and one jump.
    pub fn hard() -> (r: DifficultyConfig)
        ensures
            r.gravity == mul_scaled(GRAVITY as int, 1200) == 1_176_000,
            r.jump_force == mul_scaled(PLAYER_JUMP_FORCE as int, 900) == -360_000,
            r.move_speed == mul_scaled(PLAYER_MOVE_SPEED as int, 900) == 180_000,
            r.max_jumps == 1,
    {
        assert(980_000 * 1200 == 1_176_000_000int && -400_000 * 900 == -360_000_000int && 200_000
            * 900 == 180_000_000int);
        DifficultyConfig {
            gravity: scale_mul(GRAVITY, 1200),
            jump_force: scale_mul(PLAYER_JUMP_FORCE, 900),
            move_speed: scale_mul(PLAYER_MOVE_SPEED, 900),
            max_jumps: 1,
        }
    }
}

} // verus!
