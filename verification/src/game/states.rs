//! The states of a game.

use vstd::prelude::*;

verus! {

/// Whether the game runs or waits to be started again.
#[derive(Clone, Copy, Debug, PartialEq, Eq, Structural)]
pub enum GameState {
    Playing,
    GameOver,
}

} // verus!
