//! Game logic of a cooperative ghost-hunting game, with its behaviour stated
//! in contracts and proved: the catalogue of ghosts and their evidence,
//! difficulty presets, what each sprite of a map is and does, the tile grid
//! and its light-field blocks, the player's gear and inventory, menus, the
//! map hub, the manual, the summary score and the player's animation.

pub mod behavior;
pub mod board;
pub mod components;
pub mod difficulty;
pub mod game;
pub mod gear;
pub mod ghost;
pub mod ghost_definitions;
pub mod ghost_events;
pub mod mainmenu;
pub mod manual;
pub mod maphub;
pub mod pause;
pub mod player;
mod random;
pub mod root;
pub mod summary;
pub mod text;
