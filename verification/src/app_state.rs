use vstd::prelude::*;

verus! {

/// The screens of the game.
#[derive(Debug, Clone, Copy, PartialEq, Eq, Hash, Structural)]
pub enum AppState {
    Title,
    FactionSelect,
    InGame,
    PauseMenu,
    Settings,
}

} // verus!
