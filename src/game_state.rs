use vstd::prelude::*;

verus! {

/// Phase of the surrounding application; the simulation only advances while
/// it is `Running`.
#[derive(Debug, Clone, Copy, PartialEq, Eq, Hash, Structural)]
pub enum GameState {
    Loading,
    Planning,
    Running,
    Paused,
}

impl Default for GameState {
    fn default() -> (r: Self)
        ensures
            r == GameState::Loading,
    {
        GameState::Loading
    }
}

} // verus!
