//! The game screen: its configuration, the kinds of sounds and sprites on
//! it, and what its events and keys change.

use vstd::prelude::*;

use crate::root;

pub mod evidence;
pub mod level;

verus! {

/// Game-wide settings: which player this game is played as.
#[derive(Debug, Clone, Copy, PartialEq, Eq, Structural)]
pub struct GameConfig {
    pub player_id: usize,
}

impl Default for GameConfig {
    fn default() -> (r: Self)
        ensures
            r.player_id == 1,
    {
        GameConfig { player_id: 1 }
    }
}

/// The background sounds of a game.
#[derive(Debug, Clone, Copy, PartialEq, Eq, Structural)]
pub enum SoundType {
    BackgroundHouse,
    BackgroundStreet,
    HeartBeat,
    Insane,
}

/// What a sprite on the map stands for.
#[derive(Debug, Clone, Copy, PartialEq, Eq, Structural)]
pub enum SpriteType {
    /// The ghost; written `Ghost` in the game's own terms.
    GhostSprite,
    Breach,
    Player,
    Other,
}

impl Default for SpriteType {
    fn default() -> (r: Self)
        ensures
            r == SpriteType::Other,
    {
        SpriteType::Other
    }
}

/// The overlay to show after escape is pressed in game: the pause screen
/// when playing with nothing over the map; nothing changes otherwise, nor
/// off the game screen or while paused.
pub fn keyboard(app_state: root::State, game_state: root::GameState, escape: bool) -> (r: Option<
    root::GameState,
>)
    ensures
        r == if app_state == root::State::InGame && game_state == root::GameState::NoGameState
            && escape {
            Some(root::GameState::Pause)
        } else {
            None
        },
{
    if app_state != root::State::InGame {
        return None;
    }
    let in_game = game_state == root::GameState::NoGameState;
    if game_state == root::GameState::Pause {
        return None;
    }
    if escape && in_game {
        Some(root::GameState::Pause)
    } else {
        None
    }
}

/// The player moved to another room, or the level was set up.
#[derive(Debug, Clone, Copy, PartialEq, Eq, Structural)]
pub struct RoomChangedEvent {
    /// Raised while setting up the level.
    pub initialize: bool,
    /// The van screen should open.
    pub open_van: bool,
}

impl Default for RoomChangedEvent {
    fn default() -> (r: Self)
        ensures
            !r.initialize,
            !r.open_van,
    {
        RoomChangedEvent { initialize: false, open_van: false }
    }
}

impl RoomChangedEvent {
    /// The event raised while setting up a level.
    pub fn init(open_van: bool) -> (r: RoomChangedEvent)
        ensures
            r.initialize,
            r.open_van == open_van,
    {
        RoomChangedEvent { initialize: true, open_van }
    }
}

/// How an interaction with an object is carried out.
#[derive(Debug, Clone, Copy, PartialEq, Eq, Structural)]
pub enum InteractionExecutionType {
    /// The object moves to its next state.
    ChangeState,
    /// The object takes the state of its room.
    ReadRoomState,
}

/// The overlay to show after a room change: the van when the event asks for
/// it.
pub fn roomchanged_event(ev: RoomChangedEvent) -> (r: Option<root::GameState>)
    ensures
        r == if ev.open_van {
            Some(root::GameState::Truck)
        } else {
            None
        },
{
    if ev.open_van {
        Some(root::GameState::Truck)
    } else {
        None
    }
}

} // verus!
