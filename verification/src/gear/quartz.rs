//! The quartz stone: a charm that cracks each time it absorbs a hunt, and
//! shatters after three cracks.

use vstd::prelude::*;

use super::GearSpriteID;
use crate::text::{decimal, decimal_of};

verus! {

/// The quartz stone and its number of cracks.
#[derive(Debug, Clone, Copy, PartialEq, Eq, Structural)]
pub struct QuartzStoneData {
    pub cracks: u8,
}

impl QuartzStoneData {
    /// Creates an intact stone.
    pub fn new() -> (r: QuartzStoneData)
        ensures
            r.cracks == 0,
    {
        QuartzStoneData { cracks: 0 }
    }

    /// Returns the name shown for the gear.
    pub fn get_display_name(&self) -> (r: &'static str)
        ensures
            r@ == "Quartz Stone"@,
    {
        "Quartz Stone"
    }

    /// Returns the description shown for the gear.
    pub fn get_description(&self) -> (r: &'static str)
        ensures
            r@ == "A protective charm that absorbs the ghost's hunting energy, preventing or shortening hunts. The stone gradually cracks and eventually breaks after repeated uses."@,
    {
        "A protective charm that absorbs the ghost's hunting energy, preventing or shortening hunts. The stone gradually cracks and eventually breaks after repeated uses."
    }

    /// Returns the status: "Shattered" from three cracks on, else the
    /// number of cracks.
    pub fn get_status(&self) -> (r: String)
        ensures
            r@ == if self.cracks >= 3 {
                "Shattered"@
            } else {
                "Cracks: "@ + decimal_of(self.cracks as nat)
            },
    {
        if self.cracks >= 3 {
            return String::from_str("Shattered");
        }
        String::from_str("Cracks: ").concat(decimal(self.cracks as u64).as_str())
    }

    /// Returns whether the stone is shattered.
    pub fn is_shattered(&self) -> (r: bool)
        ensures
            r == (self.cracks >= 3),
    {
        self.cracks >= 3
    }

    /// Adds one crack when the ghost's breach is within range (the caller
    /// measures the distance) and the stone is not shattered yet; returns
    /// whether it cracked, which is when the crack sound plays.
    pub fn update(&mut self, ghost_in_range: bool) -> (r: bool)
        ensures
            r == (ghost_in_range && old(self).cracks < 3),
            final(self).cracks == (if r {
                old(self).cracks + 1
            } else {
                old(self).cracks as int
            }),
    {
        if ghost_in_range && self.cracks < 3 {
            self.cracks = self.cracks + 1;
            true
        } else {
            false
        }
    }

    /// The sprite for the current state.
    pub open spec fn sprite(self) -> GearSpriteID {
        if self.cracks == 0 {
            GearSpriteID::QuartzStone0
        } else if self.cracks == 1 {
            GearSpriteID::QuartzStone1
        } else if self.cracks == 2 {
            GearSpriteID::QuartzStone2
        } else if self.cracks == 3 {
            GearSpriteID::QuartzStone3
        } else {
            GearSpriteID::QuartzStone4
        }
    }

    /// Returns the sprite for the number of cracks.
    pub fn get_sprite_idx(&self) -> (r: GearSpriteID)
        ensures
            r == self.sprite(),
    {
        match self.cracks {
            0 => GearSpriteID::QuartzStone0,
            1 => GearSpriteID::QuartzStone1,
            2 => GearSpriteID::QuartzStone2,
            3 => GearSpriteID::QuartzStone3,
            _ => GearSpriteID::QuartzStone4,
        }
    }
}

} // verus!
