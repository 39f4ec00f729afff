//! The repellent flask: filled in the van with an essence against one ghost
//! type, then emptied in the ghost's room to expel it.

use vstd::prelude::*;

use super::GearSpriteID;
use crate::ghost_definitions::GhostType;

verus! {

/// Amount of repellent in a full flask.
pub const FLASK_MAX_QTY: i32 = 200;

/// Life of a released repellent particle, in updates.
pub const REPELLENT_MAX_LIFE: i32 = 500;

/// The repellent flask: the essence it holds, whether it is being emptied,
/// and how much is left.
#[derive(Debug, Clone, Copy, PartialEq, Eq, Structural)]
pub struct RepellentFlask {
    pub liquid_content: Option<GhostType>,
    pub active: bool,
    pub qty: i32,
}

/// What one update of the flask asks the caller to do.
#[derive(Debug, Clone, Copy, PartialEq, Eq, Structural)]
pub struct FlaskUpdate {
    /// The flask started emptying on this update: one more use of repellent
    /// counts towards the mission summary.
    pub count_use: bool,
    /// A repellent particle against this ghost type is released now.
    pub release: Option<GhostType>,
}

impl FlaskUpdate {
    /// The number of repellent uses in the mission summary after this
    /// update, from `used` before it: one more when the flask started
    /// emptying.
    pub fn record_use(&self, used: u32) -> (r: u32)
        requires
            self.count_use ==> used < u32::MAX,
        ensures
            r == if self.count_use {
                used + 1
            } else {
                used as int
            },
    {
        if self.count_use {
            used + 1
        } else {
            used
        }
    }
}

impl RepellentFlask {
    /// Creates an empty flask.
    pub fn new() -> (r: RepellentFlask)
        ensures
            r.liquid_content is None,
            !r.active,
            r.qty == 0,
    {
        RepellentFlask { liquid_content: None, active: false, qty: 0 }
    }

    /// Returns the name shown for the gear.
    pub fn get_display_name(&self) -> (r: &'static str)
        ensures
            r@ == "Unhaunter Repellent"@,
    {
        "Unhaunter Repellent"
    }

    /// Returns the description shown for the gear.
    pub fn get_description(&self) -> (r: &'static str)
        ensures
            r@ == "Crafted in the van, specifically targeting a single ghost type to be effective enough to expel a ghost."@,
    {
        "Crafted in the van, specifically targeting a single ghost type to be effective enough to expel a ghost."
    }

    /// The sprite for the current state.
    pub open spec fn sprite(self) -> GearSpriteID {
        if self.liquid_content is Some {
            GearSpriteID::RepelentFlaskFull
        } else {
            GearSpriteID::RepelentFlaskEmpty
        }
    }

    /// Returns the sprite: full when it holds an essence, empty otherwise.
    pub fn get_sprite_idx(&self) -> (r: GearSpriteID)
        ensures
            r == self.sprite(),
    {
        match self.liquid_content.is_some() {
            true => GearSpriteID::RepelentFlaskFull,
            false => GearSpriteID::RepelentFlaskEmpty,
        }
    }

    /// Returns the status text: the essence held (or "Empty") and what to do
    /// with the flask next.
    pub fn get_status(&self) -> (r: String)
        ensures
            r@ == "Unhaunter Repellent: "@ + (match self.liquid_content {
                Some(g) => "\nAnti-"@ + g.name_of() + " essence"@,
                None => "Empty"@,
            }) + "\n"@ + (if self.liquid_content is Some {
                if self.active {
                    "Emptying flask..."@
                } else {
                    "Activate in ghost room to expel it"@
                }
            } else {
                "Flask must be filled on the van"@
            }),
    {
        let name = String::from_str("Unhaunter Repellent: ");
        let on_s = match self.liquid_content {
            Some(x) => String::from_str("\nAnti-").concat(x.name()).concat(" essence"),
            None => String::from_str("Empty"),
        };
        let msg = if self.liquid_content.is_some() {
            if self.active {
                "Emptying flask..."
            } else {
                "Activate in ghost room to expel it"
            }
        } else {
            "Flask must be filled on the van"
        };
        name.concat(on_s.as_str()).concat("\n").concat(msg)
    }

    /// Starts emptying a filled flask; an empty flask is left as is.
    pub fn set_trigger(&mut self)
        ensures
            old(self).liquid_content is Some ==> final(self).active && final(self).liquid_content
                == old(self).liquid_content && final(self).qty == old(self).qty,
            old(self).liquid_content is None ==> *final(self) == *old(self),
    {
        if self.liquid_content.is_none() {
            return;
        }
        self.active = true;
    }

    /// One update of the flask. An inactive flask does nothing. An active one
    /// loses one unit (counting a use when it was full); once nothing is left
    /// it becomes empty and inactive; otherwise it releases a particle of
    /// its essence.
    pub fn update(&mut self) -> (r: FlaskUpdate)
        requires
            old(self).qty > i32::MIN,
        ensures
            !old(self).active ==> *final(self) == *old(self) && !r.count_use && r.release is None,
            old(self).active ==> r.count_use == (old(self).qty == FLASK_MAX_QTY),
            old(self).active && old(self).qty - 1 <= 0 ==> final(self).qty == 0 && !final(self).active && final(self).liquid_content is None && r.release is None,
            old(self).active && old(self).qty - 1 > 0 && old(self).liquid_content is None
                ==> final(self).qty == 0 && !final(self).active && r.release is None,
            old(self).active && old(self).qty - 1 > 0 && old(self).liquid_content is Some
                ==> final(self).qty == old(self).qty - 1 && final(self).active && final(self).liquid_content == old(self).liquid_content && r.release == old(self).liquid_content,
    {
        if !self.active {
            return FlaskUpdate { count_use: false, release: None };
        }
        let count_use = self.qty == FLASK_MAX_QTY;
        self.qty = self.qty - 1;
        if self.qty <= 0 {
            self.qty = 0;
            self.active = false;
            self.liquid_content = None;
            return FlaskUpdate { count_use, release: None };
        }
        match self.liquid_content {
            Some(liquid_content) => FlaskUpdate { count_use, release: Some(liquid_content) },
            None => {
                self.qty = 0;
                self.active = false;
                FlaskUpdate { count_use, release: None }
            },
        }
    }

    /// Fills the flask with a full dose of essence against `ghost_type`.
    pub fn fill_liquid(&mut self, ghost_type: GhostType)
        ensures
            final(self).liquid_content == Some(ghost_type),
            !final(self).active,
            final(self).qty == FLASK_MAX_QTY,
    {
        self.liquid_content = Some(ghost_type);
        self.active = false;
        self.qty = FLASK_MAX_QTY;
    }

    /// Returns whether filling with `ghost_type` would change anything: it
    /// would not only when the flask already holds a full, unused dose of it.
    pub fn can_fill_liquid(&self, ghost_type: GhostType) -> (r: bool)
        ensures
            r == !(self.liquid_content == Some(ghost_type) && !self.active && self.qty
                == FLASK_MAX_QTY),
    {
        let same = match self.liquid_content {
            Some(g) => g == ghost_type,
            None => false,
        };
        !(same && !self.active && self.qty == FLASK_MAX_QTY)
    }
}

/// A released particle of repellent against one ghost type.
#[derive(Debug, Clone, Copy, PartialEq, Eq, Structural)]
pub struct Repellent {
    pub class: GhostType,
    pub life: i32,
}

impl Repellent {
    /// Creates a particle with its full life.
    pub fn new(class: GhostType) -> (r: Repellent)
        ensures
            r.class == class,
            r.life == REPELLENT_MAX_LIFE,
    {
        Repellent { class, life: REPELLENT_MAX_LIFE }
    }
}

} // verus!
