//! The map hub: choosing a map, then a difficulty, before a game.

use vstd::prelude::*;

pub mod difficulty_selection;
pub mod map_selection;

verus! {

/// Which screen of the map hub is shown.
#[derive(Debug, Clone, Copy, PartialEq, Eq, Hash, Structural)]
pub enum MapHubState {
    /// The map hub is not shown.
    NoMapHubState,
    MapSelection,
    DifficultySelection,
}

impl Default for MapHubState {
    fn default() -> (r: Self)
        ensures
            r == MapHubState::NoMapHubState,
    {
        MapHubState::NoMapHubState
    }
}

} // verus!
