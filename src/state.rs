//! The game-state machine: play goes on until the player touches an obstacle.

use vstd::prelude::*;

verus! {

/// Phase of a game.
#[derive(Debug, Clone, Copy, PartialEq, Eq, Hash, Structural)]
pub enum GameState {
    Playing,
    GameOver,
    NewGame,
}

/// Whether a tick in state `s` moves the player, the obstacles and the
/// spawner.
pub open spec fn is_active(s: GameState) -> bool {
    s == GameState::Playing
}

/// The state after a collision check in state `s` that found a collision
/// (`collided`) or none.
pub open spec fn state_after_check(s: GameState, collided: bool) -> GameState {
    if collided {
        GameState::GameOver
    } else {
        s
    }
}

impl GameState {
    /// Whether a tick moves the player, the obstacles and the spawner: only
    /// while playing.
    pub fn gameplay_active(&self) -> (r: bool)
        ensures
            r == is_active(*self),
    {
        match self {
            GameState::Playing => true,
            _ => false,
        }
    }

    /// The state after the end-of-tick collision check: the game is over when
    /// either edge of the player touched an obstacle, and unchanged otherwise.
    pub fn after_collision_check(&self, start_collided: bool, end_collided: bool) -> (r: GameState)
        ensures
            r == state_after_check(*self, start_collided || end_collided),
    {
        if start_collided || end_collided {
            GameState::GameOver
        } else {
            *self
        }
    }
}

/// Once over, a game stays over: no collision check changes it and no tick
/// moves anything but the camera.
pub proof fn lemma_game_over_terminal(collided: bool)
    ensures
        state_after_check(GameState::GameOver, collided) == GameState::GameOver,
        !is_active(GameState::GameOver),
{
}

} // verus!
