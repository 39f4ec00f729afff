//! Choosing the difficulty: the levels shown as a grid of four columns.

use vstd::prelude::*;

use super::MapHubState;
use crate::difficulty::{lemma_from_level, lemma_level_roundtrip, Difficulty, DifficultyStruct};

verus! {

/// The highlighted difficulty and the map chosen before.
#[derive(Debug, Clone, Copy, PartialEq, Eq, Structural)]
pub struct DifficultySelectionState {
    pub selected_difficulty: Difficulty,
    pub selected_map_idx: usize,
}

/// An entry of the grid as shown.
#[derive(Debug, Clone, Copy, PartialEq, Eq, Structural)]
pub struct DifficultySelectionItem {
    pub difficulty: Difficulty,
}

/// What a key press on the grid leads to.
#[derive(Debug, Clone, Copy, PartialEq, Eq, Structural)]
pub struct DifficultySelectionAction {
    /// The highlighted difficulty was confirmed.
    pub confirmed: bool,
    /// The next screen of the map hub, if it changes.
    pub next_hub_state: Option<MapHubState>,
}

/// The level `k` places after `d`, wrapping around.
pub open spec fn shifted(d: Difficulty, k: int) -> Difficulty {
    Difficulty::from_level((d.level() + k) % 16)
}

/// Moves `d` by `k` levels, one step at a time forwards or backwards.
fn step_levels(d: Difficulty, k: u8, forward: bool) -> (r: Difficulty)
    requires
        k <= 16,
    ensures
        r == shifted(d, if forward { k as int } else { 16 - k as int }),
{
    let mut r = d;
    let mut j: u8 = 0;
    proof {
        lemma_level_roundtrip(d);
    }
    while j < k
        invariant
            j <= k <= 16,
            0 <= d.level() < 16,
            r.level() == if forward {
                (d.level() + j) % 16
            } else {
                (d.level() + 16 - j) % 16
            },
        decreases k - j,
    {
        r = if forward {
            r.next()
        } else {
            r.prev()
        };
        j = j + 1;
    }
    proof {
        lemma_level_roundtrip(r);
        let target = if forward { (d.level() + k) % 16 } else { (d.level() + 16 - k) % 16 };
        assert(r.level() == target);
    }
    r
}

/// Applies the keys pressed on the grid, checked in this order: up and down
/// move the highlight a row (four levels) back or forth, left and right one
/// level, all wrapping around; enter confirms the highlighted level and
/// escape goes back to the map list.
pub fn keyboard(
    state: &mut DifficultySelectionState,
    up: bool,
    down: bool,
    left: bool,
    right: bool,
    enter: bool,
    escape: bool,
) -> (r: DifficultySelectionAction)
    ensures
        final(state).selected_map_idx == old(state).selected_map_idx,
        final(state).selected_difficulty == if up {
            shifted(old(state).selected_difficulty, 12)
        } else if down {
            shifted(old(state).selected_difficulty, 4)
        } else if left {
            shifted(old(state).selected_difficulty, 15)
        } else if right {
            shifted(old(state).selected_difficulty, 1)
        } else {
            old(state).selected_difficulty
        },
        r.confirmed == (!up && !down && !left && !right && enter),
        r.next_hub_state == if !up && !down && !left && !right && !enter && escape {
            Some(MapHubState::MapSelection)
        } else {
            None
        },
{
    let none = DifficultySelectionAction { confirmed: false, next_hub_state: None };
    if up {
        state.selected_difficulty = step_levels(state.selected_difficulty, 4, false);
        none
    } else if down {
        state.selected_difficulty = step_levels(state.selected_difficulty, 4, true);
        none
    } else if left {
        state.selected_difficulty = step_levels(state.selected_difficulty, 1, false);
        none
    } else if right {
        state.selected_difficulty = step_levels(state.selected_difficulty, 1, true);
        none
    } else if enter {
        DifficultySelectionAction { confirmed: true, next_hub_state: None }
    } else if escape {
        DifficultySelectionAction { confirmed: false, next_hub_state: Some(MapHubState::MapSelection) }
    } else {
        none
    }
}

/// Once the highlighted level is confirmed: the settings of that level to
/// play with, and the map hub closes. Nothing happens without a
/// confirmation.
pub fn handle_difficulty_selection(confirmed: bool, state: &DifficultySelectionState) -> (r: Option<
    (DifficultyStruct, MapHubState),
>)
    ensures
        confirmed <==> r is Some,
        r matches Some(p) ==> p.0.matches(state.selected_difficulty) && p.1
            == MapHubState::NoMapHubState,
{
    if !confirmed {
        return None;
    }
    Some((state.selected_difficulty.create_difficulty_struct(), MapHubState::NoMapHubState))
}

/// Whether the shown entry of `item` is the highlighted one.
pub fn update_item_colors(item: &DifficultySelectionItem, state: &DifficultySelectionState) -> (r:
    bool)
    ensures
        r == (item.difficulty == state.selected_difficulty),
{
    item.difficulty == state.selected_difficulty
}

proof fn lemma_shift_compose(d: Difficulty, a: int, b: int)
    requires
        0 <= a,
        0 <= b,
    ensures
        shifted(shifted(d, a), b) == shifted(d, a + b),
{
    lemma_level_roundtrip(d);
    lemma_from_level((d.level() + a) % 16);
    assert((((d.level() + a) % 16) + b) % 16 == (d.level() + a + b) % 16);
}

proof fn lemma_shift_turn(d: Difficulty, k: int)
    requires
        k == 16,
    ensures
        shifted(d, k) == d,
{
    lemma_level_roundtrip(d);
    assert((d.level() + k) % 16 == d.level());
}

/// Up undoes down and left undoes right: moving a row or a level and back
/// returns to the same level, and four rows make a full turn.
pub proof fn lemma_grid_moves_undo(d: Difficulty)
    ensures
        shifted(shifted(d, 4), 12) == d,
        shifted(shifted(d, 12), 4) == d,
        shifted(shifted(d, 1), 15) == d,
        shifted(shifted(d, 15), 1) == d,
        shifted(shifted(shifted(shifted(d, 4), 4), 4), 4) == d,
{
    lemma_shift_compose(d, 4, 12);
    lemma_shift_compose(d, 12, 4);
    lemma_shift_compose(d, 1, 15);
    lemma_shift_compose(d, 15, 1);
    lemma_shift_turn(d, 16);
    lemma_shift_compose(d, 4, 4);
    lemma_shift_compose(d, 8, 4);
    lemma_shift_compose(d, 12, 4);
}

} // verus!
