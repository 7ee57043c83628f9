//! What the player wants, read from the key states.

use super::{axis_input, InputHandler, Key};
use crate::entities::{Vec2, Vec2Model};
use crate::fixed::{div_toward_zero, floor_sqrt, isqrt, SCALE};
use vstd::prelude::*;

verus! {

/// Length of a vector, rounded down.
pub open spec fn length(v: Vec2Model) -> int {
    floor_sqrt(v.x * v.x + v.y * v.y)
}

/// The vector of length one in the direction of `v`, each component rounded
/// toward zero.
pub open spec fn normalized(v: Vec2Model) -> Vec2Model {
    Vec2Model {
        x: div_toward_zero(v.x * SCALE, length(v)),
        y: div_toward_zero(v.y * SCALE, length(v)),
    }
}

/// What is held sideways in `input`.
pub open spec fn horizontal(input: &InputHandler) -> int {
    axis_input(
        input.down(Key::A) || input.down(Key::Left),
        input.down(Key::D) || input.down(Key::Right),
    )
}

/// What is held up and down in `input`.
pub open spec fn vertical(input: &InputHandler) -> int {
    axis_input(
        input.down(Key::W) || input.down(Key::Up),
        input.down(Key::S) || input.down(Key::Down),
    )
}

/// The direction that the held keys ask for: along one axis a vector of length
/// one, along both the diagonal shortened to length one, else nothing.
pub open spec fn movement(input: &InputHandler) -> Vec2Model {
    let held = Vec2Model { x: horizontal(input), y: vertical(input) };
    if length(held) > SCALE {
        normalized(held)
    } else {
        held
    }
}

/// Whether a direction is held.
pub fn is_moving(input: &InputHandler) -> (r: bool)
    ensures
        r == (horizontal(input) != 0 || vertical(input) != 0),
{
    input.get_horizontal_input() != 0 || input.get_vertical_input() != 0
}

/// The direction that the held keys ask for, no longer than one unit.
pub fn get_movement_vector(input: &InputHandler) -> (r: Vec2)
    ensures
        r@ == movement(input),
{
    let horizontal: i64 = input.get_horizontal_input();
    let vertical: i64 = input.get_vertical_input();
    assert(0 <= horizontal * horizontal <= 1_000_000) by (nonlinear_arith)
        requires
            -1000 <= horizontal <= 1000,
    ;
    assert(0 <= vertical * vertical <= 1_000_000) by (nonlinear_arith)
        requires
            -1000 <= vertical <= 1000,
    ;
    let squares: i64 = horizontal * horizontal + vertical * vertical;
    let length: u64 = isqrt(squares as u128);
    assert(length <= 2_000_000) by (nonlinear_arith)
        requires
            length * length <= squares,
            squares <= 2_000_000,
    ;
    if length > 1000 {
        let divisor: i64 = length as i64;
        Vec2::new(horizontal * SCALE / divisor, vertical * SCALE / divisor)
    } else {
        Vec2::new(horizontal, vertical)
    }
}

/// Whether a key that means "left" is held.
pub fn wants_to_move_left(input: &InputHandler) -> (r: bool)
    ensures
        r == (input.down(Key::A) || input.down(Key::Left)),
{
    input.is_key_down(Key::A) || input.is_key_down(Key::Left)
}

/// Whether a key that means "right" is held.
pub fn wants_to_move_right(input: &InputHandler) -> (r: bool)
    ensures
        r == (input.down(Key::D) || input.down(Key::Right)),
{
    input.is_key_down(Key::D) || input.is_key_down(Key::Right)
}

/// Whether a key that means "left" was pressed in this frame while none that
/// means "right" is held.
pub fn just_started_moving_left(input: &InputHandler) -> (r: bool)
    ensures
        r == ((input.pressed(Key::A) || input.pressed(Key::Left)) && !(input.down(Key::D)
            || input.down(Key::Right))),
{
    (input.is_key_pressed(Key::A) || input.is_key_pressed(Key::Left)) && !wants_to_move_right(
        input,
    )
}

/// Whether a key that means "right" was pressed in this frame while none that
/// means "left" is held.
pub fn just_started_moving_right(input: &InputHandler) -> (r: bool)
    ensures
        r == ((input.pressed(Key::D) || input.pressed(Key::Right)) && !(input.down(Key::A)
            || input.down(Key::Left))),
{
    (input.is_key_pressed(Key::D) || input.is_key_pressed(Key::Right)) && !wants_to_move_left(
        input,
    )
}

/// Whether nothing is held sideways now while a key that means "left" or
/// "right" was held the frame before.
pub fn just_stopped_moving_horizontal(input: &InputHandler) -> (r: bool)
    ensures
        r == (horizontal(input) == 0 && (input.was_down(Key::A) || input.was_down(Key::Left)
            || input.was_down(Key::D) || input.was_down(Key::Right))),
{
    input.get_horizontal_input() == 0 && (input.was_key_down(Key::A) || input.was_key_down(
        Key::Left,
    ) || input.was_key_down(Key::D) || input.was_key_down(Key::Right))
}

} // verus!
