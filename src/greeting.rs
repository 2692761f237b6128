//! The timer gate that brings the player sprite into the level.

use vstd::prelude::*;

verus! {

/// What the game remembers between frames.
#[derive(Clone, Copy, Debug, PartialEq, Eq, Structural)]
pub struct GameState {
    /// Whether the player sprite has been spawned.
    pub player_added: bool,
}

impl Default for GameState {
    fn default() -> (r: GameState)
        ensures
            !r.player_added,
    {
        GameState { player_added: false }
    }
}

impl GameState {
    /// The state at start-up: no player sprite yet.
    pub fn new() -> (r: GameState)
        ensures
            !r.player_added,
    {
        GameState { player_added: false }
    }

    /// Handles one frame of the greeting timer. The player sprite is spawned
    /// (the result is `true`) the first time the timer has just finished, and
    /// never again.
    pub fn on_greet_timer(&mut self, timer_finished: bool) -> (spawn: bool)
        ensures
            spawn == (timer_finished && !old(self).player_added),
            final(self).player_added == (old(self).player_added || timer_finished),
    {
        if timer_finished && !self.player_added {
            self.player_added = true;
            true
        } else {
            false
        }
    }
}

} // verus!
