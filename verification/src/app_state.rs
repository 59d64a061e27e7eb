//! The phases of a session.

use vstd::prelude::*;

verus! {

/// The phase the program is in. A session starts by loading its assets and
/// then either enters the game or ends in the failure phase.
#[derive(Clone, Copy, PartialEq, Eq, Debug, Hash, Structural)]
pub enum AppState {
    LoadingAssets,
    Game,
    BadStateSadEmoji,
}

impl Default for AppState {
    fn default() -> (state: Self)
        ensures
            state == AppState::LoadingAssets,
    {
        AppState::LoadingAssets
    }
}

impl AppState {
    /// The phase that follows when asset loading has ended.
    pub open spec fn spec_after_loading(self, loaded: bool) -> AppState {
        if self == AppState::LoadingAssets {
            if loaded {
                AppState::Game
            } else {
                AppState::BadStateSadEmoji
            }
        } else {
            self
        }
    }

    /// Leaves the loading phase: into the game when every asset was loaded,
    /// into the failure phase otherwise. Any other phase stays as it is.
    pub fn after_loading(self, loaded: bool) -> (next: AppState)
        ensures
            next == self.spec_after_loading(loaded),
    {
        match self {
            AppState::LoadingAssets => if loaded {
                AppState::Game
            } else {
                AppState::BadStateSadEmoji
            },
            other => other,
        }
    }

    /// Whether the systems of the running game are scheduled in this phase.
    pub fn in_game(self) -> (running: bool)
        ensures
            running == (self == AppState::Game),
    {
        self == AppState::Game
    }
}

} // verus!
