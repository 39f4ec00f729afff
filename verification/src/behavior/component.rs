//! The components that tiles carry according to their behaviour class.

use vstd::prelude::*;

use super::{Behavior, Class, Orientation, State};
use crate::board::BoardPosition;

verus! {

/// A tile the player can stand on.
#[derive(Debug, Clone, Copy, PartialEq, Eq, Structural)]
pub struct Ground;

/// A tile that blocks movement.
#[derive(Debug, Clone, Copy, PartialEq, Eq, Structural)]
pub struct Collision;

/// A tile that blocks light.
#[derive(Debug, Clone, Copy, PartialEq, Eq, Structural)]
pub struct Opaque;

/// A tile that shows traces under ultraviolet light.
#[derive(Debug, Clone, Copy, PartialEq, Eq, Structural)]
pub struct UVSurface;

/// No offset.
pub open spec fn no_delta() -> BoardPosition {
    BoardPosition { x: 0i64, y: 0i64, z: 0i64 }
}

/// The offset from a room switch facing `o` to the room it controls.
pub open spec fn room_delta_for(o: Orientation) -> BoardPosition {
    match o {
        Orientation::XAxis | Orientation::YAxis => BoardPosition { x: -1i64, y: 1i64, z: 0i64 },
        _ => no_delta(),
    }
}

/// Where the room that a switch or lamp belongs to lies, from its tile.
#[derive(Debug, Clone, Copy, PartialEq, Eq, Structural)]
pub struct RoomState {
    pub room_delta: BoardPosition,
}

impl RoomState {
    /// A room state for the tile's own room.
    pub fn new() -> (r: RoomState)
        ensures
            r.room_delta == no_delta(),
    {
        RoomState { room_delta: BoardPosition::default() }
    }

    /// A room state for a room switch facing `orientation`.
    pub fn new_for_room(orientation: &Orientation) -> (r: RoomState)
        ensures
            r.room_delta == room_delta_for(*orientation),
    {
        RoomState {
            room_delta: match orientation {
                Orientation::XAxis => BoardPosition { x: -1, y: 1, z: 0 },
                Orientation::YAxis => BoardPosition { x: -1, y: 1, z: 0 },
                Orientation::Both => BoardPosition::default(),
                Orientation::NoOrientation => BoardPosition::default(),
            },
        }
    }
}

/// Whether moving into state `s` is switching the object on (or opening it).
pub open spec fn activates(s: State) -> bool {
    match s {
        State::On | State::Open | State::Full | State::Partial | State::Minimum => true,
        State::Off | State::Closed | State::NoState => false,
    }
}

/// Offset from a tile to the point the player interacts with, in
/// hundredths of a tile: doors are used from their side.
pub open spec fn control_point_of(class: Class, orientation: Orientation) -> (i32, i32, i32) {
    match class {
        Class::Door => match orientation {
            Orientation::XAxis => (0i32, -25i32, 0i32),
            Orientation::YAxis => (25i32, 0i32, 0i32),
            _ => (0i32, 0i32, 0i32),
        },
        _ => (0i32, 0i32, 0i32),
    }
}

/// A tile the player can switch, with the sounds it makes.
#[derive(Debug, Clone, PartialEq, Eq)]
pub struct Interactive {
    pub on_activate_sound_file: String,
    pub on_deactivate_sound_file: String,
}

impl Interactive {
    /// An interactive tile with the given sound files.
    pub fn new(activate: &str, deactivate: &str) -> (r: Interactive)
        ensures
            r.on_activate_sound_file@ == activate@,
            r.on_deactivate_sound_file@ == deactivate@,
    {
        let on_activate_sound_file = String::from_str(activate);
        let on_deactivate_sound_file = String::from_str(deactivate);
        Interactive { on_activate_sound_file, on_deactivate_sound_file }
    }

    /// Returns the sound to play as the sprite of `behavior` moves into its
    /// current state.
    pub fn sound_for_moving_into_state(&self, behavior: &Behavior) -> (r: String)
        ensures
            r == if activates(behavior.config().state_of()) {
                self.on_activate_sound_file
            } else {
                self.on_deactivate_sound_file
            },
    {
        match behavior.cfg.state {
            State::On => self.on_activate_sound_file.clone(),
            State::Off => self.on_deactivate_sound_file.clone(),
            State::Open => self.on_activate_sound_file.clone(),
            State::Closed => self.on_deactivate_sound_file.clone(),
            State::Full => self.on_activate_sound_file.clone(),
            State::Partial => self.on_activate_sound_file.clone(),
            State::Minimum => self.on_activate_sound_file.clone(),
            State::NoState => self.on_deactivate_sound_file.clone(),
        }
    }

    /// Returns the offset from the tile of `behavior` to the point the
    /// player interacts with, in hundredths of a tile.
    pub fn control_point_delta(&self, behavior: &Behavior) -> (r: (i32, i32, i32))
        ensures
            r == control_point_of(behavior.config().class_of(), behavior.config().orientation_of()),
    {
        match behavior.cfg.class {
            Class::Door => match behavior.cfg.orientation {
                Orientation::XAxis => (0, -25, 0),
                Orientation::YAxis => (25, 0, 0),
                _ => (0, 0, 0),
            },
            _ => (0, 0, 0),
        }
    }
}

/// What a user property of a map layer holds, as far as tiles read it.
#[derive(Debug, Clone, PartialEq, Eq)]
pub enum LayerProperty {
    /// A text value.
    Text(String),
    /// A value of another type.
    Other,
}

/// The name of the layer property that holds the dialog of an NPC.
pub open spec fn dialog_key(classname: Seq<char>, variant: Seq<char>) -> Seq<char> {
    classname + ":"@ + variant + ":dialog"@
}

/// The text of the first property named `key`; empty when there is none or
/// when it is not text.
pub open spec fn property_text(props: Seq<(String, LayerProperty)>, key: Seq<char>) -> Seq<char>
    decreases props.len(),
{
    if props.len() == 0 {
        Seq::empty()
    } else if props[0].0@ == key {
        match props[0].1 {
            LayerProperty::Text(v) => v@,
            LayerProperty::Other => Seq::empty(),
        }
    } else {
        property_text(props.drop_first(), key)
    }
}

/// The dialog an NPC says when the player talks to it.
#[derive(Debug, Clone, PartialEq, Eq)]
pub struct NpcHelpDialog {
    pub dialog: String,
}

impl NpcHelpDialog {
    /// Reads the dialog of the NPC of class `classname` and variant
    /// `variant` from the user properties of its layer: the text property
    /// named `classname:variant:dialog`, or nothing.
    pub fn new(classname: &str, variant: &str, user_properties: &Vec<(String, LayerProperty)>) -> (r:
        NpcHelpDialog)
        ensures
            r.dialog@ == property_text(user_properties@, dialog_key(classname@, variant@)),
    {
        let key = String::from_str(classname).concat(":").concat(variant).concat(":dialog");
        assert(key@ =~= dialog_key(classname@, variant@));
        let ghost props = user_properties@;
        let n = user_properties.len();
        let mut i: usize = 0;
        assert(props.subrange(0, n as int) =~= props);
        while i < n
            invariant
                n == props.len(),
                props == user_properties@,
                key@ == dialog_key(classname@, variant@),
                i <= n,
                property_text(props, key@) == property_text(props.subrange(i as int, n as int), key@),
            decreases n - i,
        {
            let ghost rest = props.subrange(i as int, n as int);
            assert(rest[0] == props[i as int]);
            let entry = &user_properties[i];
            assert(*entry == props[i as int]);
            if entry.0 == key {
                assert(property_text(rest, key@) == match rest[0].1 {
                    LayerProperty::Text(v) => v@,
                    LayerProperty::Other => Seq::<char>::empty(),
                });
                match &entry.1 {
                    LayerProperty::Text(v) => {
                        return NpcHelpDialog { dialog: v.clone() };
                    },
                    LayerProperty::Other => {
                        return NpcHelpDialog { dialog: String::new() };
                    },
                }
            }
            assert(rest.drop_first() =~= props.subrange(i as int + 1, n as int));
            i = i + 1;
        }
        NpcHelpDialog { dialog: String::new() }
    }
}

} // verus!
