use vstd::prelude::*;

verus! {

/// The screens the game moves between.
#[derive(Clone, Copy, PartialEq, Eq, Structural, Debug)]
pub enum GameState {
    Loading,
    MainMenu,
    Playing,
    /// A brief pause before the level restarts or the game is over.
    DeathPause,
    LevelComplete,
    GameOver,
}

impl Default for GameState {
    fn default() -> (res: GameState)
        ensures
            res == GameState::Loading,
    {
        GameState::Loading
    }
}

} // verus!
