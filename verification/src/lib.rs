//! Physics and collision core of a 2D side-scrolling platformer.
//!
//! A body falls under gravity, moves by its velocity and is pushed out of the
//! platforms it runs into; the queries around that classify how two
//! axis-aligned boxes touch. Around this core stand the things of the game
//! (player, platforms, collectibles), the key states, and the game itself,
//! which computes one frame from the last.
//!
//! All quantities are fixed-point numbers (see [`fixed`]), so every result is
//! exact. Each type has a model in unbounded integers, its view, and each
//! function says in terms of the models what it returns or changes. The
//! functions are stated for well-formed values: bodies with an extent, and
//! numbers within the limits of [`fixed`]. Nothing in the crate reads a
//! clock, a keyboard or a screen: durations, held keys and the size of the
//! screen are arguments.

pub mod config;
pub mod entities;
pub mod fixed;
pub mod game;
pub mod input;
pub mod physics;
