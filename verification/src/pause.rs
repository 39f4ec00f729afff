//! The pause screen: resuming or quitting to the main menu.

use vstd::prelude::*;

use crate::root;

verus! {

/// What the keys pressed on the pause screen change: escape resumes the
/// game and Q resumes it and leaves for the main menu. Nothing happens when
/// the game is not paused.
pub fn keyboard(game_state: root::GameState, escape: bool, quit: bool) -> (r: (
    Option<root::GameState>,
    Option<root::State>,
))
    ensures
        r.0 == if game_state == root::GameState::Pause && (escape || quit) {
            Some(root::GameState::NoGameState)
        } else {
            None
        },
        r.1 == if game_state == root::GameState::Pause && quit {
            Some(root::State::MainMenu)
        } else {
            None
        },
{
    if game_state != root::GameState::Pause {
        return (None, None);
    }
    let mut next_game = None;
    let mut next_app = None;
    if escape {
        next_game = Some(root::GameState::NoGameState);
    }
    if quit {
        next_game = Some(root::GameState::NoGameState);
        next_app = Some(root::State::MainMenu);
    }
    (next_game, next_app)
}

} // verus!
