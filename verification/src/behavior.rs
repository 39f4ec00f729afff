//! Tile behaviour: what a sprite of a map is (its class, orientation and
//! state, read from the text attributes of the map), the properties it gives
//! its tile and the components that the tile carries.

use vstd::prelude::*;

pub mod component;

use crate::board::BoardPosition;
use crate::text::{
    decimal, decimal_of, decode_quoted, encode_unquoted, has_control_char, is_plain, json_decoded_str,
    lemma_plain_from_prefix, plain_prefix, quote, same_text, text_key, text_view, TextError,
};

verus! {

/// The main behaviour class of a sprite.
#[derive(Debug, Clone, Copy, PartialEq, Eq, Hash, Structural)]
pub enum Class {
    Floor,
    Wall,
    LowWall,
    Door,
    Switch,
    RoomSwitch,
    Breaker,
    Doorway,
    Decor,
    Item,
    Furniture,
    PlayerSpawn,
    GhostSpawn,
    VanEntry,
    RoomDef,
    WallLamp,
    FloorLamp,
    TableLamp,
    WallDecor,
    CeilingLight,
    StreetLight,
    Appliance,
    Van,
    Window,
    InvisibleWall,
    CornerWall,
    NPC,
    FakeGhost,
    FakeBreach,
    /// No class given; written `None` in map files.
    NoClass,
}

impl Default for Class {
    fn default() -> (r: Self)
        ensures
            r == Class::NoClass,
    {
        Class::NoClass
    }
}

/// Which axis a sprite faces.
#[derive(Debug, Clone, Copy, PartialEq, Eq, Hash, Structural)]
pub enum Orientation {
    XAxis,
    YAxis,
    Both,
    /// No orientation given; written `None` in map files.
    NoOrientation,
}

impl Default for Orientation {
    fn default() -> (r: Self)
        ensures
            r == Orientation::NoOrientation,
    {
        Orientation::NoOrientation
    }
}

impl Orientation {
    /// The orientation once the sprite is mirrored: the two axes swap.
    pub open spec fn flipped(self) -> Orientation {
        match self {
            Orientation::XAxis => Orientation::YAxis,
            Orientation::YAxis => Orientation::XAxis,
            Orientation::Both => Orientation::Both,
            Orientation::NoOrientation => Orientation::NoOrientation,
        }
    }

    /// Mirrors the orientation: the X and Y axes swap, the others stay.
    pub fn flip(&mut self)
        ensures
            *final(self) == old(self).flipped(),
    {
        match self {
            Orientation::XAxis => *self = Orientation::YAxis,
            Orientation::YAxis => *self = Orientation::XAxis,
            Orientation::Both => {},
            Orientation::NoOrientation => {},
        }
    }
}

/// Mirroring twice gives back the orientation.
pub proof fn lemma_flip_twice(o: Orientation)
    ensures
        o.flipped().flipped() == o,
{
}

/// The state of a sprite: switch, door and wall states.
#[derive(Debug, Clone, Copy, PartialEq, Eq, Hash, Structural)]
pub enum State {
    On,
    Off,
    Open,
    Closed,
    Full,
    Partial,
    Minimum,
    /// No state given; written `None` in map files.
    NoState,
}

impl Default for State {
    fn default() -> (r: Self)
        ensures
            r == State::NoState,
    {
        State::NoState
    }
}

impl Class {
    /// The name of the class as a map file writes it.
    pub open spec fn text_of(self) -> Seq<char> {
        match self {
            Class::Floor => "Floor"@,
            Class::Wall => "Wall"@,
            Class::LowWall => "LowWall"@,
            Class::Door => "Door"@,
            Class::Switch => "Switch"@,
            Class::RoomSwitch => "RoomSwitch"@,
            Class::Breaker => "Breaker"@,
            Class::Doorway => "Doorway"@,
            Class::Decor => "Decor"@,
            Class::Item => "Item"@,
            Class::Furniture => "Furniture"@,
            Class::PlayerSpawn => "PlayerSpawn"@,
            Class::GhostSpawn => "GhostSpawn"@,
            Class::VanEntry => "VanEntry"@,
            Class::RoomDef => "RoomDef"@,
            Class::WallLamp => "WallLamp"@,
            Class::FloorLamp => "FloorLamp"@,
            Class::TableLamp => "TableLamp"@,
            Class::WallDecor => "WallDecor"@,
            Class::CeilingLight => "CeilingLight"@,
            Class::StreetLight => "StreetLight"@,
            Class::Appliance => "Appliance"@,
            Class::Van => "Van"@,
            Class::Window => "Window"@,
            Class::InvisibleWall => "InvisibleWall"@,
            Class::CornerWall => "CornerWall"@,
            Class::NPC => "NPC"@,
            Class::FakeGhost => "FakeGhost"@,
            Class::FakeBreach => "FakeBreach"@,
            Class::NoClass => "None"@,
        }
    }

    fn name_str(&self) -> (r: &'static str)
        ensures
            r@ == self.text_of(),
    {
        match self {
            Class::Floor => "Floor",
            Class::Wall => "Wall",
            Class::LowWall => "LowWall",
            Class::Door => "Door",
            Class::Switch => "Switch",
            Class::RoomSwitch => "RoomSwitch",
            Class::Breaker => "Breaker",
            Class::Doorway => "Doorway",
            Class::Decor => "Decor",
            Class::Item => "Item",
            Class::Furniture => "Furniture",
            Class::PlayerSpawn => "PlayerSpawn",
            Class::GhostSpawn => "GhostSpawn",
            Class::VanEntry => "VanEntry",
            Class::RoomDef => "RoomDef",
            Class::WallLamp => "WallLamp",
            Class::FloorLamp => "FloorLamp",
            Class::TableLamp => "TableLamp",
            Class::WallDecor => "WallDecor",
            Class::CeilingLight => "CeilingLight",
            Class::StreetLight => "StreetLight",
            Class::Appliance => "Appliance",
            Class::Van => "Van",
            Class::Window => "Window",
            Class::InvisibleWall => "InvisibleWall",
            Class::CornerWall => "CornerWall",
            Class::NPC => "NPC",
            Class::FakeGhost => "FakeGhost",
            Class::FakeBreach => "FakeBreach",
            Class::NoClass => "None",
        }
    }

    /// The class named `s`, if there is one.
    pub open spec fn parse_text(s: Seq<char>) -> Option<Class> {
        if exists|e: Class| e.text_of() == s {
            Some(choose|e: Class| e.text_of() == s)
        } else {
            None
        }
    }

    /// What reading a name gives once its JSON string was decoded to
    /// `decoded` (`None`: the text was no valid JSON string).
    pub open spec fn from_decoded(decoded: Option<Seq<char>>) -> Result<Class, TextError> {
        match decoded {
            None => Err(TextError::InvalidJson),
            Some(s) => match Class::parse_text(s) {
                Some(e) => Ok(e),
                None => Err(TextError::UnknownName),
            },
        }
    }

    /// What `from_text` gives for `text`: the default when there is no
    /// text, else the name held by the JSON string with `text` as contents.
    pub open spec fn text_result(text: Option<Seq<char>>) -> Result<Class, TextError> {
        match text {
            None => Ok(Class::NoClass),
            Some(t) => Class::from_decoded(json_decoded_str(quote(t))),
        }
    }

    spec fn from_key(k: (int, char, char)) -> Option<Class> {
        if k == (5int, 'F', 'r') {
            Some(Class::Floor)
        } else if k == (4int, 'W', 'l') {
            Some(Class::Wall)
        } else if k == (7int, 'L', 'l') {
            Some(Class::LowWall)
        } else if k == (4int, 'D', 'r') {
            Some(Class::Door)
        } else if k == (6int, 'S', 'h') {
            Some(Class::Switch)
        } else if k == (10int, 'R', 'h') {
            Some(Class::RoomSwitch)
        } else if k == (7int, 'B', 'r') {
            Some(Class::Breaker)
        } else if k == (7int, 'D', 'y') {
            Some(Class::Doorway)
        } else if k == (5int, 'D', 'r') {
            Some(Class::Decor)
        } else if k == (4int, 'I', 'm') {
            Some(Class::Item)
        } else if k == (9int, 'F', 'e') {
            Some(Class::Furniture)
        } else if k == (11int, 'P', 'n') {
            Some(Class::PlayerSpawn)
        } else if k == (10int, 'G', 'n') {
            Some(Class::GhostSpawn)
        } else if k == (8int, 'V', 'y') {
            Some(Class::VanEntry)
        } else if k == (7int, 'R', 'f') {
            Some(Class::RoomDef)
        } else if k == (8int, 'W', 'p') {
            Some(Class::WallLamp)
        } else if k == (9int, 'F', 'p') {
            Some(Class::FloorLamp)
        } else if k == (9int, 'T', 'p') {
            Some(Class::TableLamp)
        } else if k == (9int, 'W', 'r') {
            Some(Class::WallDecor)
        } else if k == (12int, 'C', 't') {
            Some(Class::CeilingLight)
        } else if k == (11int, 'S', 't') {
            Some(Class::StreetLight)
        } else if k == (9int, 'A', 'e') {
            Some(Class::Appliance)
        } else if k == (3int, 'V', 'n') {
            Some(Class::Van)
        } else if k == (6int, 'W', 'w') {
            Some(Class::Window)
        } else if k == (13int, 'I', 'l') {
            Some(Class::InvisibleWall)
        } else if k == (10int, 'C', 'l') {
            Some(Class::CornerWall)
        } else if k == (3int, 'N', 'C') {
            Some(Class::NPC)
        } else if k == (9int, 'F', 't') {
            Some(Class::FakeGhost)
        } else if k == (10int, 'F', 'h') {
            Some(Class::FakeBreach)
        } else if k == (4int, 'N', 'e') {
            Some(Class::NoClass)
        } else {
            None
        }
    }

    proof fn lemma_text_key(e: Class)
        ensures
            Class::from_key(text_key(e.text_of())) == Some(e),
            is_plain(e.text_of()),
    {
        match e {
            Class::Floor => {
                reveal_strlit("Floor");
                reveal_with_fuel(plain_prefix, 6);
                lemma_plain_from_prefix("Floor"@);
            },
            Class::Wall => {
                reveal_strlit("Wall");
                reveal_with_fuel(plain_prefix, 5);
                lemma_plain_from_prefix("Wall"@);
            },
            Class::LowWall => {
                reveal_strlit("LowWall");
                reveal_with_fuel(plain_prefix, 8);
                lemma_plain_from_prefix("LowWall"@);
            },
            Class::Door => {
                reveal_strlit("Door");
                reveal_with_fuel(plain_prefix, 5);
                lemma_plain_from_prefix("Door"@);
            },
            Class::Switch => {
                reveal_strlit("Switch");
                reveal_with_fuel(plain_prefix, 7);
                lemma_plain_from_prefix("Switch"@);
            },
            Class::RoomSwitch => {
                reveal_strlit("RoomSwitch");
                reveal_with_fuel(plain_prefix, 11);
                lemma_plain_from_prefix("RoomSwitch"@);
            },
            Class::Breaker => {
                reveal_strlit("Breaker");
                reveal_with_fuel(plain_prefix, 8);
                lemma_plain_from_prefix("Breaker"@);
            },
            Class::Doorway => {
                reveal_strlit("Doorway");
                reveal_with_fuel(plain_prefix, 8);
                lemma_plain_from_prefix("Doorway"@);
            },
            Class::Decor => {
                reveal_strlit("Decor");
                reveal_with_fuel(plain_prefix, 6);
                lemma_plain_from_prefix("Decor"@);
            },
            Class::Item => {
                reveal_strlit("Item");
                reveal_with_fuel(plain_prefix, 5);
                lemma_plain_from_prefix("Item"@);
            },
            Class::Furniture => {
                reveal_strlit("Furniture");
                reveal_with_fuel(plain_prefix, 10);
                lemma_plain_from_prefix("Furniture"@);
            },
            Class::PlayerSpawn => {
                reveal_strlit("PlayerSpawn");
                reveal_with_fuel(plain_prefix, 12);
                lemma_plain_from_prefix("PlayerSpawn"@);
            },
            Class::GhostSpawn => {
                reveal_strlit("GhostSpawn");
                reveal_with_fuel(plain_prefix, 11);
                lemma_plain_from_prefix("GhostSpawn"@);
            },
            Class::VanEntry => {
                reveal_strlit("VanEntry");
                reveal_with_fuel(plain_prefix, 9);
                lemma_plain_from_prefix("VanEntry"@);
            },
            Class::RoomDef => {
                reveal_strlit("RoomDef");
                reveal_with_fuel(plain_prefix, 8);
                lemma_plain_from_prefix("RoomDef"@);
            },
            Class::WallLamp => {
                reveal_strlit("WallLamp");
                reveal_with_fuel(plain_prefix, 9);
                lemma_plain_from_prefix("WallLamp"@);
            },
            Class::FloorLamp => {
                reveal_strlit("FloorLamp");
                reveal_with_fuel(plain_prefix, 10);
                lemma_plain_from_prefix("FloorLamp"@);
            },
            Class::TableLamp => {
                reveal_strlit("TableLamp");
                reveal_with_fuel(plain_prefix, 10);
                lemma_plain_from_prefix("TableLamp"@);
            },
            Class::WallDecor => {
                reveal_strlit("WallDecor");
                reveal_with_fuel(plain_prefix, 10);
                lemma_plain_from_prefix("WallDecor"@);
            },
            Class::CeilingLight => {
                reveal_strlit("CeilingLight");
                reveal_with_fuel(plain_prefix, 13);
                lemma_plain_from_prefix("CeilingLight"@);
            },
            Class::StreetLight => {
                reveal_strlit("StreetLight");
                reveal_with_fuel(plain_prefix, 12);
                lemma_plain_from_prefix("StreetLight"@);
            },
            Class::Appliance => {
                reveal_strlit("Appliance");
                reveal_with_fuel(plain_prefix, 10);
                lemma_plain_from_prefix("Appliance"@);
            },
            Class::Van => {
                reveal_strlit("Van");
                reveal_with_fuel(plain_prefix, 4);
                lemma_plain_from_prefix("Van"@);
            },
            Class::Window => {
                reveal_strlit("Window");
                reveal_with_fuel(plain_prefix, 7);
                lemma_plain_from_prefix("Window"@);
            },
            Class::InvisibleWall => {
                reveal_strlit("InvisibleWall");
                reveal_with_fuel(plain_prefix, 14);
                lemma_plain_from_prefix("InvisibleWall"@);
            },
            Class::CornerWall => {
                reveal_strlit("CornerWall");
                reveal_with_fuel(plain_prefix, 11);
                lemma_plain_from_prefix("CornerWall"@);
            },
            Class::NPC => {
                reveal_strlit("NPC");
                reveal_with_fuel(plain_prefix, 4);
                lemma_plain_from_prefix("NPC"@);
            },
            Class::FakeGhost => {
                reveal_strlit("FakeGhost");
                reveal_with_fuel(plain_prefix, 10);
                lemma_plain_from_prefix("FakeGhost"@);
            },
            Class::FakeBreach => {
                reveal_strlit("FakeBreach");
                reveal_with_fuel(plain_prefix, 11);
                lemma_plain_from_prefix("FakeBreach"@);
            },
            Class::NoClass => {
                reveal_strlit("None");
                reveal_with_fuel(plain_prefix, 5);
                lemma_plain_from_prefix("None"@);
            },
        }
    }

    /// Two values with the same name are the same value.
    pub proof fn lemma_text_injective(a: Class, b: Class)
        ensures
            a.text_of() == b.text_of() ==> a == b,
    {
        Class::lemma_text_key(a);
        Class::lemma_text_key(b);
    }

    /// The name of every class is plain text and reads back as that class.
    pub proof fn lemma_text_roundtrip(e: Class)
        ensures
            is_plain(e.text_of()),
            Class::parse_text(e.text_of()) == Some(e),
            Class::from_decoded(Some(e.text_of())) == Ok::<Class, TextError>(e),
    {
        Class::lemma_text_key(e);
        let c = choose|x: Class| x.text_of() == e.text_of();
        Class::lemma_text_injective(c, e);
    }

    /// Returns the class named `s`, if there is one.
    pub fn from_name(s: &str) -> (r: Option<Class>)
        ensures
            r == Class::parse_text(s@),
    {
        if same_text(s, "Floor") {
            proof {
                Class::lemma_text_roundtrip(Class::Floor);
            }
            return Some(Class::Floor);
        }
        if same_text(s, "Wall") {
            proof {
                Class::lemma_text_roundtrip(Class::Wall);
            }
            return Some(Class::Wall);
        }
        if same_text(s, "LowWall") {
            proof {
                Class::lemma_text_roundtrip(Class::LowWall);
            }
            return Some(Class::LowWall);
        }
        if same_text(s, "Door") {
            proof {
                Class::lemma_text_roundtrip(Class::Door);
            }
            return Some(Class::Door);
        }
        if same_text(s, "Switch") {
            proof {
                Class::lemma_text_roundtrip(Class::Switch);
            }
            return Some(Class::Switch);
        }
        if same_text(s, "RoomSwitch") {
            proof {
                Class::lemma_text_roundtrip(Class::RoomSwitch);
            }
            return Some(Class::RoomSwitch);
        }
        if same_text(s, "Breaker") {
            proof {
                Class::lemma_text_roundtrip(Class::Breaker);
            }
            return Some(Class::Breaker);
        }
        if same_text(s, "Doorway") {
            proof {
                Class::lemma_text_roundtrip(Class::Doorway);
            }
            return Some(Class::Doorway);
        }
        if same_text(s, "Decor") {
            proof {
                Class::lemma_text_roundtrip(Class::Decor);
            }
            return Some(Class::Decor);
        }
        if same_text(s, "Item") {
            proof {
                Class::lemma_text_roundtrip(Class::Item);
            }
            return Some(Class::Item);
        }
        if same_text(s, "Furniture") {
            proof {
                Class::lemma_text_roundtrip(Class::Furniture);
            }
            return Some(Class::Furniture);
        }
        if same_text(s, "PlayerSpawn") {
            proof {
                Class::lemma_text_roundtrip(Class::PlayerSpawn);
            }
            return Some(Class::PlayerSpawn);
        }
        if same_text(s, "GhostSpawn") {
            proof {
                Class::lemma_text_roundtrip(Class::GhostSpawn);
            }
            return Some(Class::GhostSpawn);
        }
        if same_text(s, "VanEntry") {
            proof {
                Class::lemma_text_roundtrip(Class::VanEntry);
            }
            return Some(Class::VanEntry);
        }
        if same_text(s, "RoomDef") {
            proof {
                Class::lemma_text_roundtrip(Class::RoomDef);
            }
            return Some(Class::RoomDef);
        }
        if same_text(s, "WallLamp") {
            proof {
                Class::lemma_text_roundtrip(Class::WallLamp);
            }
            return Some(Class::WallLamp);
        }
        if same_text(s, "FloorLamp") {
            proof {
                Class::lemma_text_roundtrip(Class::FloorLamp);
            }
            return Some(Class::FloorLamp);
        }
        if same_text(s, "TableLamp") {
            proof {
                Class::lemma_text_roundtrip(Class::TableLamp);
            }
            return Some(Class::TableLamp);
        }
        if same_text(s, "WallDecor") {
            proof {
                Class::lemma_text_roundtrip(Class::WallDecor);
            }
            return Some(Class::WallDecor);
        }
        if same_text(s, "CeilingLight") {
            proof {
                Class::lemma_text_roundtrip(Class::CeilingLight);
            }
            return Some(Class::CeilingLight);
        }
        if same_text(s, "StreetLight") {
            proof {
                Class::lemma_text_roundtrip(Class::StreetLight);
            }
            return Some(Class::StreetLight);
        }
        if same_text(s, "Appliance") {
            proof {
                Class::lemma_text_roundtrip(Class::Appliance);
            }
            return Some(Class::Appliance);
        }
        if same_text(s, "Van") {
            proof {
                Class::lemma_text_roundtrip(Class::Van);
            }
            return Some(Class::Van);
        }
        if same_text(s, "Window") {
            proof {
                Class::lemma_text_roundtrip(Class::Window);
            }
            return Some(Class::Window);
        }
        if same_text(s, "InvisibleWall") {
            proof {
                Class::lemma_text_roundtrip(Class::InvisibleWall);
            }
            return Some(Class::InvisibleWall);
        }
        if same_text(s, "CornerWall") {
            proof {
                Class::lemma_text_roundtrip(Class::CornerWall);
            }
            return Some(Class::CornerWall);
        }
        if same_text(s, "NPC") {
            proof {
                Class::lemma_text_roundtrip(Class::NPC);
            }
            return Some(Class::NPC);
        }
        if same_text(s, "FakeGhost") {
            proof {
                Class::lemma_text_roundtrip(Class::FakeGhost);
            }
            return Some(Class::FakeGhost);
        }
        if same_text(s, "FakeBreach") {
            proof {
                Class::lemma_text_roundtrip(Class::FakeBreach);
            }
            return Some(Class::FakeBreach);
        }
        if same_text(s, "None") {
            proof {
                Class::lemma_text_roundtrip(Class::NoClass);
            }
            return Some(Class::NoClass);
        }
        None
    }

    /// Reads the class from the text of a map attribute: no text gives
    /// the default, else the text is read as the contents of a JSON string
    /// and must name a class.
    pub fn from_text(text: Option<&str>) -> (r: Result<Class, TextError>)
        ensures
            r == Class::text_result(text_view(text)),
            text matches Some(t) ==> (is_plain(t@) ==> r == Class::from_decoded(Some(t@))),
            text matches Some(t) ==> (has_control_char(t@) ==> r == Err::<Class, TextError>(
                TextError::InvalidJson,
            )),
    {
        match text {
            None => Ok(Class::NoClass),
            Some(t) => match decode_quoted(t) {
                None => Err(TextError::InvalidJson),
                Some(s) => match Class::from_name(s.as_str()) {
                    Some(e) => Ok(e),
                    None => Err(TextError::UnknownName),
                },
            },
        }
    }

    /// Writes the class as the text of a map attribute: its name.
    pub fn to_text(&self) -> (r: Result<String, TextError>)
        ensures
            r matches Ok(v) && v@ == self.text_of(),
    {
        proof {
            Class::lemma_text_roundtrip(*self);
        }
        encode_unquoted(self.name_str())
    }
}

impl Orientation {
    /// The name of the orientation as a map file writes it.
    pub open spec fn text_of(self) -> Seq<char> {
        match self {
            Orientation::XAxis => "XAxis"@,
            Orientation::YAxis => "YAxis"@,
            Orientation::Both => "Both"@,
            Orientation::NoOrientation => "None"@,
        }
    }

    fn name_str(&self) -> (r: &'static str)
        ensures
            r@ == self.text_of(),
    {
        match self {
            Orientation::XAxis => "XAxis",
            Orientation::YAxis => "YAxis",
            Orientation::Both => "Both",
            Orientation::NoOrientation => "None",
        }
    }

    /// The orientation named `s`, if there is one.
    pub open spec fn parse_text(s: Seq<char>) -> Option<Orientation> {
        if exists|e: Orientation| e.text_of() == s {
            Some(choose|e: Orientation| e.text_of() == s)
        } else {
            None
        }
    }

    /// What reading a name gives once its JSON string was decoded to
    /// `decoded` (`None`: the text was no valid JSON string).
    pub open spec fn from_decoded(decoded: Option<Seq<char>>) -> Result<Orientation, TextError> {
        match decoded {
            None => Err(TextError::InvalidJson),
            Some(s) => match Orientation::parse_text(s) {
                Some(e) => Ok(e),
                None => Err(TextError::UnknownName),
            },
        }
    }

    /// What `from_text` gives for `text`: the default when there is no
    /// text, else the name held by the JSON string with `text` as contents.
    pub open spec fn text_result(text: Option<Seq<char>>) -> Result<Orientation, TextError> {
        match text {
            None => Ok(Orientation::NoOrientation),
            Some(t) => Orientation::from_decoded(json_decoded_str(quote(t))),
        }
    }

    spec fn from_key(k: (int, char, char)) -> Option<Orientation> {
        if k == (5int, 'X', 's') {
            Some(Orientation::XAxis)
        } else if k == (5int, 'Y', 's') {
            Some(Orientation::YAxis)
        } else if k == (4int, 'B', 'h') {
            Some(Orientation::Both)
        } else if k == (4int, 'N', 'e') {
            Some(Orientation::NoOrientation)
        } else {
            None
        }
    }

    proof fn lemma_text_key(e: Orientation)
        ensures
            Orientation::from_key(text_key(e.text_of())) == Some(e),
            is_plain(e.text_of()),
    {
        match e {
            Orientation::XAxis => {
                reveal_strlit("XAxis");
                reveal_with_fuel(plain_prefix, 6);
                lemma_plain_from_prefix("XAxis"@);
            },
            Orientation::YAxis => {
                reveal_strlit("YAxis");
                reveal_with_fuel(plain_prefix, 6);
                lemma_plain_from_prefix("YAxis"@);
            },
            Orientation::Both => {
                reveal_strlit("Both");
                reveal_with_fuel(plain_prefix, 5);
                lemma_plain_from_prefix("Both"@);
            },
            Orientation::NoOrientation => {
                reveal_strlit("None");
                reveal_with_fuel(plain_prefix, 5);
                lemma_plain_from_prefix("None"@);
            },
        }
    }

    /// Two values with the same name are the same value.
    pub proof fn lemma_text_injective(a: Orientation, b: Orientation)
        ensures
            a.text_of() == b.text_of() ==> a == b,
    {
        Orientation::lemma_text_key(a);
        Orientation::lemma_text_key(b);
    }

    /// The name of every orientation is plain text and reads back as that orientation.
    pub proof fn lemma_text_roundtrip(e: Orientation)
        ensures
            is_plain(e.text_of()),
            Orientation::parse_text(e.text_of()) == Some(e),
            Orientation::from_decoded(Some(e.text_of())) == Ok::<Orientation, TextError>(e),
    {
        Orientation::lemma_text_key(e);
        let c = choose|x: Orientation| x.text_of() == e.text_of();
        Orientation::lemma_text_injective(c, e);
    }

    /// Returns the orientation named `s`, if there is one.
    pub fn from_name(s: &str) -> (r: Option<Orientation>)
        ensures
            r == Orientation::parse_text(s@),
    {
        if same_text(s, "XAxis") {
            proof {
                Orientation::lemma_text_roundtrip(Orientation::XAxis);
            }
            return Some(Orientation::XAxis);
        }
        if same_text(s, "YAxis") {
            proof {
                Orientation::lemma_text_roundtrip(Orientation::YAxis);
            }
            return Some(Orientation::YAxis);
        }
        if same_text(s, "Both") {
            proof {
                Orientation::lemma_text_roundtrip(Orientation::Both);
            }
            return Some(Orientation::Both);
        }
        if same_text(s, "None") {
            proof {
                Orientation::lemma_text_roundtrip(Orientation::NoOrientation);
            }
            return Some(Orientation::NoOrientation);
        }
        None
    }

    /// Reads the orientation from the text of a map attribute: no text gives
    /// the default, else the text is read as the contents of a JSON string
    /// and must name a orientation.
    pub fn from_text(text: Option<&str>) -> (r: Result<Orientation, TextError>)
        ensures
            r == Orientation::text_result(text_view(text)),
            text matches Some(t) ==> (is_plain(t@) ==> r == Orientation::from_decoded(Some(t@))),
            text matches Some(t) ==> (has_control_char(t@) ==> r == Err::<Orientation, TextError>(
                TextError::InvalidJson,
            )),
    {
        match text {
            None => Ok(Orientation::NoOrientation),
            Some(t) => match decode_quoted(t) {
                None => Err(TextError::InvalidJson),
                Some(s) => match Orientation::from_name(s.as_str()) {
                    Some(e) => Ok(e),
                    None => Err(TextError::UnknownName),
                },
            },
        }
    }

    /// Writes the orientation as the text of a map attribute: its name.
    pub fn to_text(&self) -> (r: Result<String, TextError>)
        ensures
            r matches Ok(v) && v@ == self.text_of(),
    {
        proof {
            Orientation::lemma_text_roundtrip(*self);
        }
        encode_unquoted(self.name_str())
    }
}

impl State {
    /// The name of the state as a map file writes it.
    pub open spec fn text_of(self) -> Seq<char> {
        match self {
            State::On => "On"@,
            State::Off => "Off"@,
            State::Open => "Open"@,
            State::Closed => "Closed"@,
            State::Full => "Full"@,
            State::Partial => "Partial"@,
            State::Minimum => "Minimum"@,
            State::NoState => "None"@,
        }
    }

    fn name_str(&self) -> (r: &'static str)
        ensures
            r@ == self.text_of(),
    {
        match self {
            State::On => "On",
            State::Off => "Off",
            State::Open => "Open",
            State::Closed => "Closed",
            State::Full => "Full",
            State::Partial => "Partial",
            State::Minimum => "Minimum",
            State::NoState => "None",
        }
    }

    /// The state named `s`, if there is one.
    pub open spec fn parse_text(s: Seq<char>) -> Option<State> {
        if exists|e: State| e.text_of() == s {
            Some(choose|e: State| e.text_of() == s)
        } else {
            None
        }
    }

    /// What reading a name gives once its JSON string was decoded to
    /// `decoded` (`None`: the text was no valid JSON string).
    pub open spec fn from_decoded(decoded: Option<Seq<char>>) -> Result<State, TextError> {
        match decoded {
            None => Err(TextError::InvalidJson),
            Some(s) => match State::parse_text(s) {
                Some(e) => Ok(e),
                None => Err(TextError::UnknownName),
            },
        }
    }

    /// What `from_text` gives for `text`: the default when there is no
    /// text, else the name held by the JSON string with `text` as contents.
    pub open spec fn text_result(text: Option<Seq<char>>) -> Result<State, TextError> {
        match text {
            None => Ok(State::NoState),
            Some(t) => State::from_decoded(json_decoded_str(quote(t))),
        }
    }

    spec fn from_key(k: (int, char, char)) -> Option<State> {
        if k == (2int, 'O', 'n') {
            Some(State::On)
        } else if k == (3int, 'O', 'f') {
            Some(State::Off)
        } else if k == (4int, 'O', 'n') {
            Some(State::Open)
        } else if k == (6int, 'C', 'd') {
            Some(State::Closed)
        } else if k == (4int, 'F', 'l') {
            Some(State::Full)
        } else if k == (7int, 'P', 'l') {
            Some(State::Partial)
        } else if k == (7int, 'M', 'm') {
            Some(State::Minimum)
        } else if k == (4int, 'N', 'e') {
            Some(State::NoState)
        } else {
            None
        }
    }

    proof fn lemma_text_key(e: State)
        ensures
            State::from_key(text_key(e.text_of())) == Some(e),
            is_plain(e.text_of()),
    {
        match e {
            State::On => {
                reveal_strlit("On");
                reveal_with_fuel(plain_prefix, 3);
                lemma_plain_from_prefix("On"@);
            },
            State::Off => {
                reveal_strlit("Off");
                reveal_with_fuel(plain_prefix, 4);
                lemma_plain_from_prefix("Off"@);
            },
            State::Open => {
                reveal_strlit("Open");
                reveal_with_fuel(plain_prefix, 5);
                lemma_plain_from_prefix("Open"@);
            },
            State::Closed => {
                reveal_strlit("Closed");
                reveal_with_fuel(plain_prefix, 7);
                lemma_plain_from_prefix("Closed"@);
            },
            State::Full => {
                reveal_strlit("Full");
                reveal_with_fuel(plain_prefix, 5);
                lemma_plain_from_prefix("Full"@);
            },
            State::Partial => {
                reveal_strlit("Partial");
                reveal_with_fuel(plain_prefix, 8);
                lemma_plain_from_prefix("Partial"@);
            },
            State::Minimum => {
                reveal_strlit("Minimum");
                reveal_with_fuel(plain_prefix, 8);
                lemma_plain_from_prefix("Minimum"@);
            },
            State::NoState => {
                reveal_strlit("None");
                reveal_with_fuel(plain_prefix, 5);
                lemma_plain_from_prefix("None"@);
            },
        }
    }

    /// Two values with the same name are the same value.
    pub proof fn lemma_text_injective(a: State, b: State)
        ensures
            a.text_of() == b.text_of() ==> a == b,
    {
        State::lemma_text_key(a);
        State::lemma_text_key(b);
    }

    /// The name of every state is plain text and reads back as that state.
    pub proof fn lemma_text_roundtrip(e: State)
        ensures
            is_plain(e.text_of()),
            State::parse_text(e.text_of()) == Some(e),
            State::from_decoded(Some(e.text_of())) == Ok::<State, TextError>(e),
    {
        State::lemma_text_key(e);
        let c = choose|x: State| x.text_of() == e.text_of();
        State::lemma_text_injective(c, e);
    }

    /// Returns the state named `s`, if there is one.
    pub fn from_name(s: &str) -> (r: Option<State>)
        ensures
            r == State::parse_text(s@),
    {
        if same_text(s, "On") {
            proof {
                State::lemma_text_roundtrip(State::On);
            }
            return Some(State::On);
        }
        if same_text(s, "Off") {
            proof {
                State::lemma_text_roundtrip(State::Off);
            }
            return Some(State::Off);
        }
        if same_text(s, "Open") {
            proof {
                State::lemma_text_roundtrip(State::Open);
            }
            return Some(State::Open);
        }
        if same_text(s, "Closed") {
            proof {
                State::lemma_text_roundtrip(State::Closed);
            }
            return Some(State::Closed);
        }
        if same_text(s, "Full") {
            proof {
                State::lemma_text_roundtrip(State::Full);
            }
            return Some(State::Full);
        }
        if same_text(s, "Partial") {
            proof {
                State::lemma_text_roundtrip(State::Partial);
            }
            return Some(State::Partial);
        }
        if same_text(s, "Minimum") {
            proof {
                State::lemma_text_roundtrip(State::Minimum);
            }
            return Some(State::Minimum);
        }
        if same_text(s, "None") {
            proof {
                State::lemma_text_roundtrip(State::NoState);
            }
            return Some(State::NoState);
        }
        None
    }

    /// Reads the state from the text of a map attribute: no text gives
    /// the default, else the text is read as the contents of a JSON string
    /// and must name a state.
    pub fn from_text(text: Option<&str>) -> (r: Result<State, TextError>)
        ensures
            r == State::text_result(text_view(text)),
            text matches Some(t) ==> (is_plain(t@) ==> r == State::from_decoded(Some(t@))),
            text matches Some(t) ==> (has_control_char(t@) ==> r == Err::<State, TextError>(
                TextError::InvalidJson,
            )),
    {
        match text {
            None => Ok(State::NoState),
            Some(t) => match decode_quoted(t) {
                None => Err(TextError::InvalidJson),
                Some(s) => match State::from_name(s.as_str()) {
                    Some(e) => Ok(e),
                    None => Err(TextError::UnknownName),
                },
            },
        }
    }

    /// Writes the state as the text of a map attribute: its name.
    pub fn to_text(&self) -> (r: Result<String, TextError>)
        ensures
            r matches Ok(v) && v@ == self.text_of(),
    {
        proof {
            State::lemma_text_roundtrip(*self);
        }
        encode_unquoted(self.name_str())
    }
}

/// A special role of a tile.
#[derive(Debug, Clone, PartialEq, Eq)]
pub enum Util {
    /// The tile defines the room with the given name.
    RoomDef(String),
    PlayerSpawn,
    GhostSpawn,
    Van,
    /// No special role.
    NoUtil,
}

/// How a tile is drawn.
#[derive(Debug, Clone, Copy, PartialEq, Eq, Structural)]
pub struct Display {
    pub disable: bool,
    /// Offset added to the drawing depth, in millionths.
    pub global_z: i32,
}

/// How a tile interacts with light and heat.
#[derive(Debug, Clone, Copy, PartialEq, Eq, Structural)]
pub struct Light {
    pub opaque: bool,
    pub see_through: bool,
    pub emits_light: bool,
    /// Natural logarithm of the emitted lumens, in tenths.
    pub emission_power: u32,
    pub heat_coef: i32,
}

/// How players and ghosts can move over a tile.
#[derive(Debug, Clone, Copy, PartialEq, Eq, Structural)]
pub struct Movement {
    /// The player can stand on this tile (floors only).
    pub walkable: bool,
    /// The player cannot stand here (walls, closed doors).
    pub player_collision: bool,
    pub ghost_collision: bool,
}

/// Everything the behaviour of a sprite says about its tile.
#[derive(Debug, Clone, PartialEq, Eq)]
pub struct Properties {
    pub movement: Movement,
    pub light: Light,
    pub util: Util,
    pub display: Display,
    pub flip: bool,
}

/// The properties of a tile that no sprite has set anything on.
pub open spec fn blank_properties() -> Properties {
    Properties {
        movement: Movement { walkable: false, player_collision: false, ghost_collision: false },
        light: Light {
            opaque: false,
            see_through: false,
            emits_light: false,
            emission_power: 0,
            heat_coef: 0,
        },
        util: Util::NoUtil,
        display: Display { disable: false, global_z: 0 },
        flip: false,
    }
}

impl Default for Properties {
    fn default() -> (r: Self)
        ensures
            r == blank_properties(),
    {
        Properties {
            movement: Movement { walkable: false, player_collision: false, ghost_collision: false },
            light: Light {
                opaque: false,
                see_through: false,
                emits_light: false,
                emission_power: 0,
                heat_coef: 0,
            },
            util: Util::NoUtil,
            display: Display { disable: false, global_z: 0 },
            flip: false,
        }
    }
}

/// `p` drawn at depth offset `z`.
pub open spec fn at_depth(p: Properties, z: i32) -> Properties {
    Properties { display: Display { global_z: z, ..p.display }, ..p }
}

/// `p` not drawn.
pub open spec fn hidden(p: Properties) -> Properties {
    Properties { display: Display { disable: true, ..p.display }, ..p }
}

/// `p` as a lamp: lit when `lit`, with the given power and heat coefficient.
pub open spec fn as_lamp(p: Properties, lit: bool, power: u32, heat_coef: i32) -> Properties {
    Properties {
        light: Light { emits_light: lit, emission_power: power, heat_coef: heat_coef, ..p.light },
        ..p
    }
}

/// `p` as a wall that stops the player and, when `ghost`, the ghost too.
pub open spec fn blocking(p: Properties, ghost: bool) -> Properties {
    Properties {
        movement: Movement {
            player_collision: true,
            ghost_collision: if ghost {
                true
            } else {
                p.movement.ghost_collision
            },
            ..p.movement
        },
        ..p
    }
}

/// `p` with light passing or not.
pub open spec fn with_see_through(p: Properties, see_through: bool) -> Properties {
    Properties { light: Light { see_through: see_through, ..p.light }, ..p }
}

/// `p` with the given role.
pub open spec fn with_util(p: Properties, u: Util) -> Properties {
    Properties { util: u, ..p }
}

/// The properties of a tile once a sprite of class `class` with variant
/// `variant` and state `state` has set its own on `p`; what the class does
/// not set stays as it was in `p`.
pub open spec fn class_properties(class: Class, variant: String, state: State, p: Properties) -> Properties {
    match class {
        Class::Floor => at_depth(
            Properties { movement: Movement { walkable: true, ..p.movement }, ..p },
            -350i32,
        ),
        Class::Wall => at_depth(
            Properties { light: Light { opaque: true, ..p.light }, ..blocking(p, true) },
            -50i32,
        ),
        Class::LowWall => at_depth(with_see_through(blocking(p, true), true), -50i32),
        Class::Door => at_depth(
            Properties {
                movement: Movement { player_collision: state == State::Closed, ..p.movement },
                ..p
            },
            15i32,
        ),
        Class::Switch | Class::RoomSwitch | Class::Breaker => at_depth(p, 40i32),
        Class::Doorway => at_depth(p, -50i32),
        Class::Decor | Class::Item => at_depth(p, 65i32),
        Class::Furniture | Class::NPC | Class::Van => at_depth(p, 50i32),
        Class::InvisibleWall => hidden(with_see_through(blocking(p, false), true)),
        Class::CornerWall => hidden(with_see_through(blocking(p, false), false)),
        Class::PlayerSpawn => with_util(hidden(p), Util::PlayerSpawn),
        Class::GhostSpawn => with_util(hidden(p), Util::GhostSpawn),
        Class::FakeGhost | Class::FakeBreach => hidden(p),
        Class::VanEntry => with_util(p, Util::Van),
        Class::RoomDef => with_util(hidden(p), Util::RoomDef(variant)),
        Class::WallLamp => as_lamp(at_depth(p, -40i32), state == State::On, 55u32, -1i32),
        Class::FloorLamp => as_lamp(at_depth(p, 50i32), state == State::On, 60u32, p.light.heat_coef),
        Class::TableLamp => as_lamp(at_depth(p, 50i32), state == State::On, 65u32, p.light.heat_coef),
        Class::WallDecor | Class::Window => at_depth(p, -40i32),
        Class::CeilingLight => as_lamp(hidden(p), state == State::On, 70u32, -2i32),
        Class::StreetLight => as_lamp(hidden(p), true, 60u32, -6i32),
        Class::Appliance => at_depth(p, 70i32),
        Class::NoClass => p,
    }
}

/// Identifies the sprites that show one object: class, variant, orientation.
#[derive(Debug, Clone, PartialEq, Eq, Hash)]
pub struct SpriteCVOKey {
    pub class: Class,
    pub variant: String,
    pub orientation: Orientation,
}

/// Why the attributes of a sprite could not be read, and which attribute.
#[derive(Debug, Clone, Copy, PartialEq, Eq, Structural)]
pub enum SpriteConfigError {
    Class(TextError),
    Orientation(TextError),
    State(TextError),
}

/// What a sprite of a tileset is, as read from its attributes.
#[derive(Debug, Clone, PartialEq, Eq, Hash)]
pub struct SpriteConfig {
    /// Main behaviour class.
    class: Class,
    /// Variant name, shared by all the sprites that show the same object.
    variant: String,
    /// The axis the sprite faces.
    orientation: Orientation,
    /// The class, variant and orientation the sprite was read with.
    cvo_key: SpriteCVOKey,
    /// Current state of the sprite, or its initial one.
    pub state: State,
    /// Name of the tileset.
    pub tileset: String,
    /// Identifier of the sprite in its tileset.
    pub tileuid: u32,
}

/// The sound files played when an object is switched.
pub open spec fn door_open_sound() -> Seq<char> {
    "sounds/door-open.ogg"@
}

pub open spec fn door_close_sound() -> Seq<char> {
    "sounds/door-close.ogg"@
}

pub open spec fn switch_on_sound() -> Seq<char> {
    "sounds/switch-on-1.ogg"@
}

pub open spec fn switch_off_sound() -> Seq<char> {
    "sounds/switch-off-1.ogg"@
}

pub open spec fn npc_sound() -> Seq<char> {
    "sounds/effects-dongdongdong.ogg"@
}

/// A component that a tile of a given class carries.
#[derive(Debug, Clone, PartialEq, Eq)]
pub enum TileComponent {
    Ground(component::Ground),
    Collision(component::Collision),
    Opaque(component::Opaque),
    UVSurface(component::UVSurface),
    Interactive(component::Interactive),
    RoomState(component::RoomState),
    NpcHelpDialog(component::NpcHelpDialog),
}

/// `c` is an interactive component with these two sounds.
pub open spec fn is_interactive(c: TileComponent, on: Seq<char>, off: Seq<char>) -> bool {
    c matches TileComponent::Interactive(i) && i.on_activate_sound_file@ == on
        && i.on_deactivate_sound_file@ == off
}

/// `c` is the room state with this delta.
pub open spec fn is_room_state(c: TileComponent, delta: BoardPosition) -> bool {
    c matches TileComponent::RoomState(s) && s.room_delta == delta
}

/// The components of a tile of class `class` facing `orientation`: `cs`
/// lists them in order. `dialog` is the dialog an NPC tile carries.
pub open spec fn class_components(
    class: Class,
    orientation: Orientation,
    dialog: Seq<char>,
    cs: Seq<TileComponent>,
) -> bool {
    match class {
        Class::Floor => cs.len() == 2 && cs[0] is Ground && cs[1] is UVSurface,
        Class::Wall | Class::LowWall => cs.len() == 3 && cs[0] is Collision && cs[1] is Opaque
            && cs[2] is UVSurface,
        Class::Door | Class::VanEntry => cs.len() == 1 && is_interactive(
            cs[0],
            door_open_sound(),
            door_close_sound(),
        ),
        Class::Switch => cs.len() == 2 && is_interactive(cs[0], switch_on_sound(), switch_off_sound())
            && is_room_state(cs[1], component::no_delta()),
        Class::RoomSwitch => cs.len() == 2 && is_interactive(
            cs[0],
            switch_on_sound(),
            switch_off_sound(),
        ) && is_room_state(cs[1], component::room_delta_for(orientation)),
        Class::Breaker | Class::FloorLamp | Class::TableLamp => cs.len() == 1 && is_interactive(
            cs[0],
            switch_on_sound(),
            switch_off_sound(),
        ),
        Class::WallLamp | Class::CeilingLight => cs.len() == 1 && is_room_state(
            cs[0],
            component::no_delta(),
        ),
        Class::NPC => cs.len() == 2 && (cs[0] matches TileComponent::NpcHelpDialog(d)
            && d.dialog@ == dialog) && is_interactive(cs[1], npc_sound(), npc_sound()),
        _ => cs.len() == 0,
    }
}

/// The variant that a sprite without one gets: `tileset:uid`.
pub open spec fn default_variant(tileset: Seq<char>, tileuid: u32) -> Seq<char> {
    tileset + ":"@ + decimal_of(tileuid as nat)
}

impl SpriteConfig {
    /// The behaviour class.
    pub closed spec fn class_of(self) -> Class {
        self.class
    }

    /// The variant name.
    pub closed spec fn variant_of(self) -> String {
        self.variant
    }

    /// The axis the sprite faces now.
    pub closed spec fn orientation_of(self) -> Orientation {
        self.orientation
    }

    /// The current state.
    pub closed spec fn state_of(self) -> State {
        self.state
    }

    /// The name of the tileset.
    pub closed spec fn tileset_of(self) -> String {
        self.tileset
    }

    /// The identifier of the sprite in its tileset.
    pub closed spec fn tileuid_of(self) -> u32 {
        self.tileuid
    }

    /// The key the sprite was read with.
    pub closed spec fn cvo_key_of(self) -> SpriteCVOKey {
        self.cvo_key
    }

    /// The same sprite facing `o`.
    pub closed spec fn facing(self, o: Orientation) -> SpriteConfig {
        SpriteConfig { orientation: o, ..self }
    }

    /// The properties that this sprite sets on `p`.
    pub open spec fn apply_to(self, p: Properties) -> Properties {
        class_properties(self.class_of(), self.variant_of(), self.state_of(), p)
    }

    /// Returns the class, variant and orientation the sprite was read with.
    pub fn key_cvo(&self) -> (r: SpriteCVOKey)
        ensures
            r == self.cvo_key_of(),
    {
        SpriteCVOKey {
            class: self.cvo_key.class,
            variant: self.cvo_key.variant.clone(),
            orientation: self.cvo_key.orientation,
        }
    }

    /// Returns the tileset name and the identifier of the sprite in it.
    pub fn key_tuid(&self) -> (r: (String, u32))
        ensures
            r.0 == self.tileset_of(),
            r.1 == self.tileuid_of(),
    {
        (self.tileset.clone(), self.tileuid)
    }

    /// Reads a sprite from its attributes: class, variant, orientation and
    /// state, each possibly absent. A missing variant becomes
    /// `tileset:tileuid`. Fails on the first of class, orientation and state
    /// whose text does not name a value.
    pub fn try_from_tiled(
        class: Option<&str>,
        variant: Option<&str>,
        orientation: Option<&str>,
        state: Option<&str>,
        tileset: String,
        tileuid: u32,
    ) -> (r: Result<SpriteConfig, SpriteConfigError>)
        ensures
            match Class::text_result(text_view(class)) {
                Err(e) => r == Err::<SpriteConfig, SpriteConfigError>(SpriteConfigError::Class(e)),
                Ok(c) => match Orientation::text_result(text_view(orientation)) {
                    Err(e) => r == Err::<SpriteConfig, SpriteConfigError>(
                        SpriteConfigError::Orientation(e),
                    ),
                    Ok(o) => match State::text_result(text_view(state)) {
                        Err(e) => r == Err::<SpriteConfig, SpriteConfigError>(
                            SpriteConfigError::State(e),
                        ),
                        Ok(s) => r matches Ok(cfg) && cfg.class_of() == c && cfg.orientation_of()
                            == o && cfg.state_of() == s && cfg.tileset_of() == tileset && cfg.tileuid_of()
                            == tileuid && cfg.variant_of()@ == match variant {
                            Some(v) => v@,
                            None => default_variant(tileset@, tileuid),
                        } && cfg.cvo_key_of().class == c && cfg.cvo_key_of().orientation == o
                            && cfg.cvo_key_of().variant == cfg.variant_of(),
                    },
                },
            },
    {
        let tilesetuid_key = tileset.clone().concat(":").concat(decimal(tileuid as u64).as_str());
        let class = match Class::from_text(class) {
            Ok(c) => c,
            Err(e) => return Err(SpriteConfigError::Class(e)),
        };
        let variant = match variant {
            Some(v) => String::from_str(v),
            None => tilesetuid_key,
        };
        let orientation = match Orientation::from_text(orientation) {
            Ok(o) => o,
            Err(e) => return Err(SpriteConfigError::Orientation(e)),
        };
        let state = match State::from_text(state) {
            Ok(s) => s,
            Err(e) => return Err(SpriteConfigError::State(e)),
        };
        let cvo_key = SpriteCVOKey { class, variant: variant.clone(), orientation };
        Ok(SpriteConfig { class, variant, orientation, state, tileset, tileuid, cvo_key })
    }

    /// Reads a sprite from its attributes, which must all be valid; see
    /// `try_from_tiled`.
    pub fn from_tiled(
        class: Option<&str>,
        variant: Option<&str>,
        orientation: Option<&str>,
        state: Option<&str>,
        tileset: String,
        tileuid: u32,
    ) -> (r: SpriteConfig)
        requires
            Class::text_result(text_view(class)) is Ok,
            Orientation::text_result(text_view(orientation)) is Ok,
            State::text_result(text_view(state)) is Ok,
        ensures
            Class::text_result(text_view(class)) == Ok::<Class, TextError>(r.class_of()),
            Orientation::text_result(text_view(orientation)) == Ok::<Orientation, TextError>(
                r.orientation_of(),
            ),
            State::text_result(text_view(state)) == Ok::<State, TextError>(r.state_of()),
            r.tileset_of() == tileset,
            r.tileuid_of() == tileuid,
            r.variant_of()@ == match variant {
                Some(v) => v@,
                None => default_variant(tileset@, tileuid),
            },
            r.cvo_key_of().class == r.class_of(),
            r.cvo_key_of().orientation == r.orientation_of(),
            r.cvo_key_of().variant == r.variant_of(),
    {
        match SpriteConfig::try_from_tiled(class, variant, orientation, state, tileset, tileuid) {
            Ok(cfg) => cfg,
            Err(_) => vstd::pervasive::unreached(),
        }
    }

    /// Reads a sprite from its attributes when they are all valid, and
    /// returns `None` otherwise, where `from_tiled` may not be called.
    pub fn checked_from_tiled(
        class: Option<&str>,
        variant: Option<&str>,
        orientation: Option<&str>,
        state: Option<&str>,
        tileset: String,
        tileuid: u32,
    ) -> (r: Option<SpriteConfig>)
        ensures
            r is Some <==> (Class::text_result(text_view(class)) is Ok && Orientation::text_result(
                text_view(orientation),
            ) is Ok && State::text_result(text_view(state)) is Ok),
            r matches Some(cfg) ==> Class::text_result(text_view(class)) == Ok::<Class, TextError>(
                cfg.class_of(),
            ) && Orientation::text_result(text_view(orientation)) == Ok::<Orientation, TextError>(
                cfg.orientation_of(),
            ) && State::text_result(text_view(state)) == Ok::<State, TextError>(cfg.state_of())
                && cfg.tileset_of() == tileset && cfg.tileuid_of() == tileuid,
    {
        let ok = match Class::from_text(class) {
            Ok(_) => match Orientation::from_text(orientation) {
                Ok(_) => match State::from_text(state) {
                    Ok(_) => true,
                    Err(_) => false,
                },
                Err(_) => false,
            },
            Err(_) => false,
        };
        if ok {
            Some(SpriteConfig::from_tiled(class, variant, orientation, state, tileset, tileuid))
        } else {
            None
        }
    }

    /// Returns the components that a tile of this sprite carries, in order;
    /// an NPC reads its dialog from the user properties of its layer.
    pub fn components(&self, user_properties: &Vec<(String, component::LayerProperty)>) -> (r: Vec<
        TileComponent,
    >)
        ensures
            class_components(
                self.class_of(),
                self.orientation_of(),
                component::property_text(
                    user_properties@,
                    component::dialog_key("NPC"@, self.variant_of()@),
                ),
                r@,
            ),
    {
        match self.class {
            Class::Floor => vec![
                TileComponent::Ground(component::Ground),
                TileComponent::UVSurface(component::UVSurface),
            ],
            Class::Wall | Class::LowWall => vec![
                TileComponent::Collision(component::Collision),
                TileComponent::Opaque(component::Opaque),
                TileComponent::UVSurface(component::UVSurface),
            ],
            Class::Door | Class::VanEntry => vec![
                TileComponent::Interactive(
                    component::Interactive::new("sounds/door-open.ogg", "sounds/door-close.ogg"),
                ),
            ],
            Class::Switch => vec![
                TileComponent::Interactive(
                    component::Interactive::new("sounds/switch-on-1.ogg", "sounds/switch-off-1.ogg"),
                ),
                TileComponent::RoomState(component::RoomState::new()),
            ],
            Class::RoomSwitch => vec![
                TileComponent::Interactive(
                    component::Interactive::new("sounds/switch-on-1.ogg", "sounds/switch-off-1.ogg"),
                ),
                TileComponent::RoomState(component::RoomState::new_for_room(&self.orientation)),
            ],
            Class::Breaker | Class::FloorLamp | Class::TableLamp => vec![
                TileComponent::Interactive(
                    component::Interactive::new("sounds/switch-on-1.ogg", "sounds/switch-off-1.ogg"),
                ),
            ],
            Class::WallLamp | Class::CeilingLight => vec![
                TileComponent::RoomState(component::RoomState::new()),
            ],
            Class::NPC => vec![
                TileComponent::NpcHelpDialog(
                    component::NpcHelpDialog::new("NPC", self.variant.as_str(), user_properties),
                ),
                TileComponent::Interactive(
                    component::Interactive::new(
                        "sounds/effects-dongdongdong.ogg",
                        "sounds/effects-dongdongdong.ogg",
                    ),
                ),
            ],
            _ => Vec::new(),
        }
    }

    /// Sets on `p` the properties of this sprite's class; the rest of `p`
    /// stays as it was.
    #[verifier::rlimit(60)]
    pub fn set_properties(&self, p: &mut Properties)
        ensures
            *final(p) == self.apply_to(*old(p)),
    {
        match self.class {
            Class::Floor => {
                p.movement.walkable = true;
                p.display.global_z = -350;
            },
            Class::Wall => {
                p.movement.player_collision = true;
                p.movement.ghost_collision = true;
                p.light.opaque = true;
                p.display.global_z = -50;
            },
            Class::LowWall => {
                p.movement.player_collision = true;
                p.movement.ghost_collision = true;
                p.light.see_through = true;
                p.display.global_z = -50;
            },
            Class::Door => {
                p.display.global_z = 15;
                p.movement.player_collision = self.state == State::Closed;
            },
            Class::Switch => {
                p.display.global_z = 40;
            },
            Class::RoomSwitch => {
                p.display.global_z = 40;
            },
            Class::Breaker => {
                p.display.global_z = 40;
            },
            Class::Doorway => {
                p.display.global_z = -50;
            },
            Class::Decor => {
                p.display.global_z = 65;
            },
            Class::Item => {
                p.display.global_z = 65;
            },
            Class::Furniture => {
                p.display.global_z = 50;
            },
            Class::NPC => {
                p.display.global_z = 50;
            },
            Class::InvisibleWall => {
                p.movement.player_collision = true;
                p.light.see_through = true;
                p.display.disable = true;
            },
            Class::CornerWall => {
                p.movement.player_collision = true;
                p.light.see_through = false;
                p.display.disable = true;
            },
            Class::PlayerSpawn => {
                p.display.disable = true;
                p.util = Util::PlayerSpawn;
            },
            Class::GhostSpawn => {
                p.display.disable = true;
                p.util = Util::GhostSpawn;
            },
            Class::FakeGhost => {
                p.display.disable = true;
            },
            Class::FakeBreach => {
                p.display.disable = true;
            },
            Class::VanEntry => {
                p.util = Util::Van;
            },
            Class::RoomDef => {
                p.display.disable = true;
                p.util = Util::RoomDef(self.variant.clone());
            },
            Class::WallLamp => {
                p.display.global_z = -40;
                p.light.emits_light = self.state == State::On;
                p.light.emission_power = 55;
                p.light.heat_coef = -1;
            },
            Class::FloorLamp => {
                p.display.global_z = 50;
                p.light.emits_light = self.state == State::On;
                p.light.emission_power = 60;
            },
            Class::TableLamp => {
                p.display.global_z = 50;
                p.light.emits_light = self.state == State::On;
                p.light.emission_power = 65;
            },
            Class::WallDecor => {
                p.display.global_z = -40;
            },
            Class::CeilingLight => {
                p.display.disable = true;
                p.light.emits_light = self.state == State::On;
                p.light.emission_power = 70;
                p.light.heat_coef = -2;
            },
            Class::StreetLight => {
                p.display.disable = true;
                p.light.emits_light = true;
                p.light.emission_power = 60;
                p.light.heat_coef = -6;
            },
            Class::Appliance => {
                p.display.global_z = 70;
            },
            Class::Van => {
                p.display.global_z = 50;
            },
            Class::Window => {
                p.display.global_z = -40;
            },
            Class::NoClass => {},
        }
    }

    /// The states a class requires: the only valid ones for it, all of
    /// which its sprites must provide.
    pub open spec fn required_states_of(class: Class) -> Seq<State> {
        match class {
            Class::Wall => seq![State::Full, State::Partial, State::Minimum],
            Class::Door => seq![State::Open, State::Closed],
            Class::Switch | Class::Breaker => seq![State::On, State::Off],
            _ => seq![State::NoState],
        }
    }

    /// Returns the states that this sprite's class requires.
    pub fn _required_states(&self) -> (r: Vec<State>)
        ensures
            r@ == SpriteConfig::required_states_of(self.class_of()),
    {
        let r = match self.class {
            Class::Wall => vec![State::Full, State::Partial, State::Minimum],
            Class::Door => vec![State::Open, State::Closed],
            Class::Switch | Class::Breaker => vec![State::On, State::Off],
            _ => vec![State::NoState],
        };
        assert(r@ =~= SpriteConfig::required_states_of(self.class_of()));
        r
    }
}

/// The behaviour of a sprite on the map: what it is and the properties it
/// gives its tile.
#[derive(Debug, Clone, PartialEq, Eq)]
pub struct Behavior {
    cfg: SpriteConfig,
    pub p: Properties,
}

impl Behavior {
    /// The sprite this behaviour is made of.
    pub closed spec fn config(self) -> SpriteConfig {
        self.cfg
    }

    /// The properties of the tile.
    pub closed spec fn props(self) -> Properties {
        self.p
    }

    /// This behaviour with its flip flag set to `f`: the sprite's axis swaps
    /// when `f` differs from the current flag, and nothing changes otherwise.
    pub closed spec fn flipped_to(self, f: bool) -> Behavior {
        if f != self.p.flip {
            Behavior {
                cfg: self.cfg.facing(self.cfg.orientation.flipped()),
                p: Properties { flip: f, ..self.p },
            }
        } else {
            self
        }
    }

    /// Makes the behaviour of a sprite: its class sets its properties on
    /// blank ones.
    pub fn from_config(cfg: SpriteConfig) -> (r: Behavior)
        ensures
            r.config() == cfg,
            r.props() == cfg.apply_to(blank_properties()),
    {
        let mut p = Properties::default();
        cfg.set_properties(&mut p);
        Behavior { cfg, p }
    }

    /// Sets the flip flag; the sprite's axis swaps when the flag changes.
    pub fn flip(&mut self, f: bool)
        ensures
            *final(self) == old(self).flipped_to(f),
            final(self).props().flip == f,
            f != old(self).props().flip ==> final(self).config().orientation_of() == old(
                self,
            ).config().orientation_of().flipped(),
            f == old(self).props().flip ==> *final(self) == *old(self),
            final(self).props() == (Properties { flip: f, ..old(self).props() }),
            final(self).config().class_of() == old(self).config().class_of(),
            final(self).config().variant_of() == old(self).config().variant_of(),
            final(self).config().state_of() == old(self).config().state_of(),
            final(self).config().tileset_of() == old(self).config().tileset_of(),
            final(self).config().tileuid_of() == old(self).config().tileuid_of(),
            final(self).config().cvo_key_of() == old(self).config().cvo_key_of(),
    {
        if f != self.p.flip {
            self.cfg.orientation.flip();
            self.p.flip = f;
        }
    }

    /// Returns the current state of the sprite.
    pub fn state(&self) -> (r: State)
        ensures
            r == self.config().state_of(),
    {
        self.cfg.state
    }

    /// Returns the components that the tile carries; see
    /// `SpriteConfig::components`.
    pub fn default_components(&self, user_properties: &Vec<(String, component::LayerProperty)>) -> (r:
        Vec<TileComponent>)
        ensures
            class_components(
                self.config().class_of(),
                self.config().orientation_of(),
                component::property_text(
                    user_properties@,
                    component::dialog_key("NPC"@, self.config().variant_of()@),
                ),
                r@,
            ),
    {
        self.cfg.components(user_properties)
    }

    /// Returns the class, variant and orientation the sprite was read with.
    pub fn key_cvo(&self) -> (r: SpriteCVOKey)
        ensures
            r == self.config().cvo_key_of(),
    {
        self.cfg.key_cvo()
    }

    /// Returns the tileset name and the identifier of the sprite in it.
    pub fn key_tuid(&self) -> (r: (String, u32))
        ensures
            r.0 == self.config().tileset_of(),
            r.1 == self.config().tileuid_of(),
    {
        self.cfg.key_tuid()
    }

    /// The axis along which the tile blocks light: none unless it is opaque.
    pub fn obsolete_occlusion_type(&self) -> (r: Orientation)
        ensures
            r == if self.props().light.opaque {
                self.config().orientation_of()
            } else {
                Orientation::NoOrientation
            },
    {
        if !self.p.light.opaque {
            return Orientation::NoOrientation;
        }
        self.cfg.orientation
    }

    /// Resistance of the tile to temperature change, in joules per degree:
    /// 10000 when opaque, else 10, plus 100 when walkable.
    pub fn _temp_heat_capacity(&self) -> (r: u32)
        ensures
            r == (if self.props().light.opaque {
                10000u32
            } else {
                10u32
            }) + (if self.props().movement.walkable {
                100u32
            } else {
                0u32
            }),
    {
        let f1: u32 = if self.p.light.opaque {
            10000
        } else {
            10
        };
        let f2: u32 = if self.p.movement.walkable {
            100
        } else {
            0
        };
        f1 + f2
    }

    /// Heat conductivity of the tile in thousandths of W/(m·K), and its
    /// weight for averaging, in thousandths.
    pub fn _temp_heat_conductivity(&self) -> (r: (u32, u32))
        ensures
            r == if self.props().light.opaque {
                (1u32, 1_000_000u32)
            } else {
                (10_000u32, 100u32)
            },
    {
        if self.p.light.opaque {
            (1, 1_000_000)
        } else {
            (10_000, 100)
        }
    }

    /// Whether the sprite is the entry of the van.
    pub fn is_van_entry(&self) -> (r: bool)
        ensures
            r == (self.config().class_of() == Class::VanEntry),
    {
        self.cfg.class == Class::VanEntry
    }

    /// Whether the sprite is a non-player character.
    pub fn is_npc(&self) -> (r: bool)
        ensures
            r == (self.config().class_of() == Class::NPC),
    {
        self.cfg.class == Class::NPC
    }
}

/// Lamps follow their switch: a wall lamp, floor lamp, table lamp or
/// ceiling light gives light exactly when its sprite is in state `On`; a
/// street light always gives light; every other class leaves whether the
/// tile gives light as it was.
pub proof fn lemma_lamps_follow_switch(c: SpriteConfig, p: Properties)
    ensures
        (c.class_of() == Class::WallLamp || c.class_of() == Class::FloorLamp || c.class_of()
            == Class::TableLamp || c.class_of() == Class::CeilingLight) ==> c.apply_to(
            p,
        ).light.emits_light == (c.state_of() == State::On),
        c.class_of() == Class::StreetLight ==> c.apply_to(p).light.emits_light,
        !(c.class_of() == Class::WallLamp || c.class_of() == Class::FloorLamp || c.class_of()
            == Class::TableLamp || c.class_of() == Class::CeilingLight || c.class_of()
            == Class::StreetLight) ==> c.apply_to(p).light.emits_light == p.light.emits_light,
{
}

/// Who can pass a tile: a floor can be walked on and is the only class that
/// makes a tile walkable; a door stops the player exactly when it is
/// closed; walls and low walls stop the player and the ghost; invisible
/// and corner walls stop the player only; no other class changes who can
/// pass.
pub proof fn lemma_classes_block(c: SpriteConfig, p: Properties)
    ensures
        c.apply_to(p).movement.walkable == (c.class_of() == Class::Floor || p.movement.walkable),
        c.class_of() == Class::Door ==> c.apply_to(p).movement.player_collision == (c.state_of()
            == State::Closed) && c.apply_to(p).movement.ghost_collision
            == p.movement.ghost_collision,
        (c.class_of() == Class::Wall || c.class_of() == Class::LowWall) ==> c.apply_to(
            p,
        ).movement.player_collision && c.apply_to(p).movement.ghost_collision,
        (c.class_of() == Class::InvisibleWall || c.class_of() == Class::CornerWall) ==> c.apply_to(
            p,
        ).movement.player_collision && c.apply_to(p).movement.ghost_collision
            == p.movement.ghost_collision,
        !(c.class_of() == Class::Door || c.class_of() == Class::Wall || c.class_of()
            == Class::LowWall || c.class_of() == Class::InvisibleWall || c.class_of()
            == Class::CornerWall) ==> c.apply_to(p).movement.player_collision
            == p.movement.player_collision && c.apply_to(p).movement.ghost_collision
            == p.movement.ghost_collision,
{
}

/// Whether light passes a tile: a wall is opaque; low walls and invisible
/// walls let light through and corner walls do not; no other class changes
/// these.
pub proof fn lemma_classes_let_light(c: SpriteConfig, p: Properties)
    ensures
        c.apply_to(p).light.opaque == (c.class_of() == Class::Wall || p.light.opaque),
        (c.class_of() == Class::LowWall || c.class_of() == Class::InvisibleWall) ==> c.apply_to(
            p,
        ).light.see_through,
        c.class_of() == Class::CornerWall ==> !c.apply_to(p).light.see_through,
        !(c.class_of() == Class::LowWall || c.class_of() == Class::InvisibleWall || c.class_of()
            == Class::CornerWall) ==> c.apply_to(p).light.see_through == p.light.see_through,
{
}

/// The role a tile plays in a level: player and ghost spawn points, the
/// van entry and room definitions (named by the sprite's variant) set
/// theirs; no other class changes the role.
pub proof fn lemma_classes_roles(c: SpriteConfig, p: Properties)
    ensures
        c.class_of() == Class::PlayerSpawn ==> c.apply_to(p).util == Util::PlayerSpawn,
        c.class_of() == Class::GhostSpawn ==> c.apply_to(p).util == Util::GhostSpawn,
        c.class_of() == Class::VanEntry ==> c.apply_to(p).util == Util::Van,
        c.class_of() == Class::RoomDef ==> c.apply_to(p).util == Util::RoomDef(c.variant_of()),
        !(c.class_of() == Class::PlayerSpawn || c.class_of() == Class::GhostSpawn || c.class_of()
            == Class::VanEntry || c.class_of() == Class::RoomDef) ==> c.apply_to(p).util == p.util,
{
}

/// The flip flag of a tile is never set by its class.
pub proof fn lemma_classes_keep_flip(c: SpriteConfig, p: Properties)
    ensures
        c.apply_to(p).flip == p.flip,
{
}

/// What the components of a tile let the game do with it: the lamps wired
/// to their room (wall lamps, ceiling lights) follow the room's state and
/// cannot be used by hand; doors, switches, breakers, floor and table lamps,
/// the van entry and NPCs can be used; room switches and plain switches
/// name the room they control, plain switches their own tile's room;
/// floors can be stood on, walls and low walls stop movement and light;
/// every other class carries no component.
pub proof fn lemma_components_of_classes(
    class: Class,
    orientation: Orientation,
    dialog: Seq<char>,
    cs: Seq<TileComponent>,
)
    requires
        class_components(class, orientation, dialog, cs),
    ensures
        (class == Class::WallLamp || class == Class::CeilingLight) ==> (exists|i: int|
            0 <= i < cs.len() && #[trigger] cs[i] == TileComponent::RoomState(
                component::RoomState { room_delta: BoardPosition { x: 0, y: 0, z: 0 } },
            )) && (forall|i: int| 0 <= i < cs.len() ==> !(#[trigger] cs[i] is Interactive)),
        (class == Class::Door || class == Class::Switch || class == Class::RoomSwitch || class
            == Class::Breaker || class == Class::FloorLamp || class == Class::TableLamp || class
            == Class::VanEntry || class == Class::NPC) ==> exists|i: int|
            0 <= i < cs.len() && #[trigger] cs[i] is Interactive,
        class == Class::Switch ==> cs[1] == TileComponent::RoomState(
            component::RoomState { room_delta: BoardPosition { x: 0, y: 0, z: 0 } },
        ),
        class == Class::RoomSwitch && (orientation == Orientation::XAxis || orientation
            == Orientation::YAxis) ==> cs[1] == TileComponent::RoomState(
            component::RoomState { room_delta: BoardPosition { x: -1i64, y: 1i64, z: 0i64 } },
        ),
        class == Class::Floor ==> exists|i: int| 0 <= i < cs.len() && #[trigger] cs[i] is Ground,
        (class == Class::Wall || class == Class::LowWall) ==> (exists|i: int|
            0 <= i < cs.len() && #[trigger] cs[i] is Collision) && (exists|i: int|
            0 <= i < cs.len() && #[trigger] cs[i] is Opaque),
        !(class == Class::WallLamp || class == Class::CeilingLight || class == Class::Door || class
            == Class::Switch || class == Class::RoomSwitch || class == Class::Breaker || class
            == Class::FloorLamp || class == Class::TableLamp || class == Class::VanEntry || class
            == Class::NPC || class == Class::Floor || class == Class::Wall || class
            == Class::LowWall) ==> cs.len() == 0,
{
    if class == Class::WallLamp || class == Class::CeilingLight {
        assert(cs[0] == TileComponent::RoomState(
            component::RoomState { room_delta: BoardPosition { x: 0, y: 0, z: 0 } },
        ));
    } else if class == Class::NPC {
        assert(cs[1] is Interactive);
    } else if class == Class::Door || class == Class::Switch || class == Class::RoomSwitch
        || class == Class::Breaker || class == Class::FloorLamp || class == Class::TableLamp
        || class == Class::VanEntry {
        assert(cs[0] is Interactive);
    } else if class == Class::Floor {
        assert(cs[0] is Ground);
    } else if class == Class::Wall || class == Class::LowWall {
        assert(cs[0] is Collision);
        assert(cs[1] is Opaque);
    }
}

/// Setting the flip flag twice to the same value is setting it once.
pub proof fn lemma_flip_idempotent(b: Behavior, f: bool)
    ensures
        b.flipped_to(f).flipped_to(f) == b.flipped_to(f),
{
}

/// Flipping a behaviour and flipping it back gives it back.
pub proof fn lemma_flip_back(b: Behavior)
    ensures
        b.flipped_to(!b.props().flip).flipped_to(b.props().flip) == b,
{
    let once = b.flipped_to(!b.p.flip);
    assert(once.cfg.orientation == b.cfg.orientation.flipped());
    assert(once.flipped_to(b.p.flip).cfg == b.cfg);
    assert(once.flipped_to(b.p.flip).p == b.p);
}

} // verus!
