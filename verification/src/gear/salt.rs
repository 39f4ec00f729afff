//! Salt: a bottle with four charges; each trigger drops one salt pile.

use vstd::prelude::*;

use super::GearSpriteID;
use crate::text::{decimal, decimal_of};

verus! {

/// The salt bottle: remaining charges, and whether a pile is waiting to be
/// dropped on the next update.
#[derive(Debug, Clone, Copy, PartialEq, Eq, Structural)]
pub struct SaltData {
    pub charges: u8,
    pub spawn_salt: bool,
}

impl SaltData {
    /// Creates a full bottle of four charges.
    pub fn new() -> (r: SaltData)
        ensures
            r.charges == 4,
            !r.spawn_salt,
    {
        SaltData { charges: 4, spawn_salt: false }
    }

    /// Returns the name shown for the gear.
    pub fn get_display_name(&self) -> (r: &'static str)
        ensures
            r@ == "Salt"@,
    {
        "Salt"
    }

    /// Returns the description shown for the gear.
    pub fn get_description(&self) -> (r: &'static str)
        ensures
            r@ == "A bottle containing four charges of salt. Players can drop salt piles to repel the ghost and create temporary trails of UV-reactive salt particles."@,
    {
        "A bottle containing four charges of salt. Players can drop salt piles to repel the ghost and create temporary trails of UV-reactive salt particles."
    }

    /// Returns the status: the number of charges left.
    pub fn get_status(&self) -> (r: String)
        ensures
            r@ == "Charges: "@ + decimal_of(self.charges as nat),
    {
        String::from_str("Charges: ").concat(decimal(self.charges as u64).as_str())
    }

    /// Uses one charge and schedules a pile, when a charge is left and no pile
    /// is already scheduled.
    pub fn set_trigger(&mut self)
        ensures
            old(self).charges > 0 && !old(self).spawn_salt ==> final(self).charges == old(self).charges - 1 && final(self).spawn_salt,
            !(old(self).charges > 0 && !old(self).spawn_salt) ==> *final(self) == *old(self),
    {
        if self.charges > 0 && !self.spawn_salt {
            self.charges = self.charges - 1;
            self.spawn_salt = true;
        }
    }

    /// Drops the scheduled pile, if any; returns whether a pile is dropped
    /// now (the caller spawns it and plays its sound).
    pub fn update(&mut self) -> (r: bool)
        ensures
            r == old(self).spawn_salt,
            !final(self).spawn_salt,
            final(self).charges == old(self).charges,
    {
        if self.spawn_salt {
            self.spawn_salt = false;
            true
        } else {
            false
        }
    }

    /// The sprite for the current state.
    pub open spec fn sprite(self) -> GearSpriteID {
        if self.charges == 4 {
            GearSpriteID::Salt4
        } else if self.charges == 3 {
            GearSpriteID::Salt3
        } else if self.charges == 2 {
            GearSpriteID::Salt2
        } else if self.charges == 1 {
            GearSpriteID::Salt1
        } else {
            GearSpriteID::Salt0
        }
    }

    /// Returns the sprite for the remaining charges.
    pub fn get_sprite_idx(&self) -> (r: GearSpriteID)
        ensures
            r == self.sprite(),
    {
        match self.charges {
            4 => GearSpriteID::Salt4,
            3 => GearSpriteID::Salt3,
            2 => GearSpriteID::Salt2,
            1 => GearSpriteID::Salt1,
            _ => GearSpriteID::Salt0,
        }
    }
}

} // verus!
