//! Choosing a map: a list of the maps followed by a "Go Back" entry.

use vstd::prelude::*;

use super::MapHubState;
use crate::root;

verus! {

/// The entry highlighted in the list; the position just after the last map
/// is "Go Back".
#[derive(Debug, Clone, Copy, PartialEq, Eq, Structural)]
pub struct MapSelectionState {
    pub selected_map_idx: usize,
}

impl Default for MapSelectionState {
    fn default() -> (r: Self)
        ensures
            r.selected_map_idx == 0,
    {
        MapSelectionState { selected_map_idx: 0 }
    }
}

/// An entry of the list as shown.
#[derive(Debug, Clone, Copy, PartialEq, Eq, Structural)]
pub struct MapSelectionItem {
    pub map_idx: usize,
}

/// The player chose the map at `map_idx`.
#[derive(Debug, Clone, Copy, PartialEq, Eq, Structural)]
pub struct MapSelectedEvent {
    pub map_idx: usize,
}

/// What a key press on the list leads to.
#[derive(Debug, Clone, Copy, PartialEq, Eq, Structural)]
pub struct MapSelectionAction {
    /// The map chosen, if any.
    pub event: Option<MapSelectedEvent>,
    /// The next screen of the map hub, if it changes.
    pub next_hub_state: Option<MapHubState>,
    /// The next screen of the game, if it changes.
    pub next_root_state: Option<root::State>,
}

/// The entry above `idx` in a list of `map_count` maps and "Go Back":
/// from the top it wraps to "Go Back".
pub open spec fn entry_above(idx: int, map_count: int) -> int {
    if idx == 0 {
        map_count
    } else {
        idx - 1
    }
}

/// The entry below `idx`, wrapping from "Go Back" to the top.
pub open spec fn entry_below(idx: int, map_count: int) -> int {
    (idx + 1) % (map_count + 1)
}

/// Leaving the map hub for the main menu.
pub open spec fn back_to_main_menu() -> MapSelectionAction {
    MapSelectionAction {
        event: None,
        next_hub_state: Some(MapHubState::NoMapHubState),
        next_root_state: Some(root::State::MainMenu),
    }
}

/// Nothing happens.
pub open spec fn no_action() -> MapSelectionAction {
    MapSelectionAction { event: None, next_hub_state: None, next_root_state: None }
}

/// Applies the keys pressed on the list of `map_count` maps, checked in
/// this order: up and down move the highlight (wrapping through "Go
/// Back"), enter chooses the highlighted map and goes on to the difficulty,
/// or goes back to the main menu from "Go Back", and escape goes back to
/// the main menu.
pub fn keyboard(
    state: &mut MapSelectionState,
    map_count: usize,
    up: bool,
    down: bool,
    enter: bool,
    escape: bool,
) -> (r: MapSelectionAction)
    requires
        map_count < usize::MAX,
        !up && down ==> old(state).selected_map_idx < usize::MAX,
    ensures
        up ==> final(state).selected_map_idx == entry_above(
            old(state).selected_map_idx as int,
            map_count as int,
        ) && r == no_action(),
        !up && down ==> final(state).selected_map_idx == entry_below(
            old(state).selected_map_idx as int,
            map_count as int,
        ) && r == no_action(),
        !up && !down ==> *final(state) == *old(state),
        !up && !down && enter ==> r == if old(state).selected_map_idx < map_count {
            MapSelectionAction {
                event: Some(MapSelectedEvent { map_idx: old(state).selected_map_idx }),
                next_hub_state: Some(MapHubState::DifficultySelection),
                next_root_state: None,
            }
        } else {
            back_to_main_menu()
        },
        !up && !down && !enter && escape ==> r == back_to_main_menu(),
        !up && !down && !enter && !escape ==> r == no_action(),
{
    let none = MapSelectionAction { event: None, next_hub_state: None, next_root_state: None };
    if up {
        if state.selected_map_idx == 0 {
            state.selected_map_idx = map_count;
        } else {
            state.selected_map_idx = state.selected_map_idx - 1;
        }
        none
    } else if down {
        state.selected_map_idx = (state.selected_map_idx + 1) % (map_count + 1);
        none
    } else if enter {
        if state.selected_map_idx < map_count {
            MapSelectionAction {
                event: Some(MapSelectedEvent { map_idx: state.selected_map_idx }),
                next_hub_state: Some(MapHubState::DifficultySelection),
                next_root_state: None,
            }
        } else {
            MapSelectionAction {
                event: None,
                next_hub_state: Some(MapHubState::NoMapHubState),
                next_root_state: Some(root::State::MainMenu),
            }
        }
    } else if escape {
        MapSelectionAction {
            event: None,
            next_hub_state: Some(MapHubState::NoMapHubState),
            next_root_state: Some(root::State::MainMenu),
        }
    } else {
        none
    }
}

/// Whether the shown entry of `item` is the highlighted one.
pub fn update_item_colors(item: &MapSelectionItem, state: &MapSelectionState) -> (r: bool)
    ensures
        r == (item.map_idx == state.selected_map_idx),
{
    item.map_idx == state.selected_map_idx
}

/// The highlight stays on the list: from any entry of the list, moving up
/// or down lands on an entry of the list.
pub proof fn lemma_selection_stays_in_list(idx: int, map_count: int)
    requires
        0 <= idx <= map_count,
    ensures
        0 <= entry_above(idx, map_count) <= map_count,
        0 <= entry_below(idx, map_count) <= map_count,
{
    lemma_below(idx, map_count);
}

/// Moving down then up, or up then down, comes back to the same entry.
pub proof fn lemma_selection_moves_undo(idx: int, map_count: int)
    requires
        0 <= idx <= map_count,
    ensures
        entry_above(entry_below(idx, map_count), map_count) == idx,
        entry_below(entry_above(idx, map_count), map_count) == idx,
{
    lemma_below(idx, map_count);
    lemma_below(entry_above(idx, map_count), map_count);
}

proof fn lemma_below(idx: int, map_count: int)
    requires
        0 <= idx <= map_count,
    ensures
        entry_below(idx, map_count) == if idx == map_count {
            0
        } else {
            idx + 1
        },
{
    if idx == map_count {
        vstd::arithmetic::div_mod::lemma_mod_self_0(map_count + 1);
    } else {
        vstd::arithmetic::div_mod::lemma_small_mod((idx + 1) as nat, (map_count + 1) as nat);
    }
}

} // verus!
