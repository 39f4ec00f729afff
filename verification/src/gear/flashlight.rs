//! The flashlight: four power settings cycled by the trigger, and a random
//! flicker of its sprite.

use vstd::prelude::*;

use super::GearSpriteID;
use crate::random::random_below;

verus! {

/// Power setting of the flashlight.
#[derive(Debug, Clone, Copy, PartialEq, Eq, Structural)]
pub enum FlashlightStatus {
    Off,
    Low,
    Mid,
    High,
}

impl FlashlightStatus {
    /// The setting that follows `s` in the trigger cycle Off, Low, Mid, High, Off.
    pub open spec fn successor(s: FlashlightStatus) -> FlashlightStatus {
        match s {
            FlashlightStatus::Off => FlashlightStatus::Low,
            FlashlightStatus::Low => FlashlightStatus::Mid,
            FlashlightStatus::Mid => FlashlightStatus::High,
            FlashlightStatus::High => FlashlightStatus::Off,
        }
    }

    /// Returns the label of the setting.
    pub fn string(&self) -> (r: &'static str)
        ensures
            r@ == (match *self {
                FlashlightStatus::Off => "OFF"@,
                FlashlightStatus::Low => "LOW"@,
                FlashlightStatus::Mid => "MID"@,
                FlashlightStatus::High => "HI"@,
            }),
    {
        match self {
            FlashlightStatus::Off => "OFF",
            FlashlightStatus::Low => "LOW",
            FlashlightStatus::Mid => "MID",
            FlashlightStatus::High => "HI",
        }
    }

    /// Returns the next setting in declaration order, or `None` after the last.
    pub fn next(&self) -> (r: Option<FlashlightStatus>)
        ensures
            r == (match *self {
                FlashlightStatus::Off => Some(FlashlightStatus::Low),
                FlashlightStatus::Low => Some(FlashlightStatus::Mid),
                FlashlightStatus::Mid => Some(FlashlightStatus::High),
                FlashlightStatus::High => None,
            }),
    {
        match self {
            FlashlightStatus::Off => Some(FlashlightStatus::Low),
            FlashlightStatus::Low => Some(FlashlightStatus::Mid),
            FlashlightStatus::Mid => Some(FlashlightStatus::High),
            FlashlightStatus::High => None,
        }
    }
}

/// The flashlight. `frame_counter` counts update frames modulo 210 and
/// `rand` holds the last flicker draw; a draw of 0 makes the sprite flicker.
#[derive(Debug, Clone, Copy, PartialEq, Eq, Structural)]
pub struct Flashlight {
    pub status: FlashlightStatus,
    pub frame_counter: u8,
    pub rand: u8,
}

impl Flashlight {
    /// Creates a flashlight that is off.
    pub fn new() -> (r: Flashlight)
        ensures
            r.status == FlashlightStatus::Off,
            r.frame_counter == 0,
            r.rand == 0,
    {
        Flashlight { status: FlashlightStatus::Off, frame_counter: 0, rand: 0 }
    }

    /// Advances the frame counter; every fifth frame draws a new flicker
    /// value in `0..12`.
    pub fn update(&mut self)
        requires
            old(self).frame_counter < 255,
        ensures
            final(self).status == old(self).status,
            final(self).frame_counter == (old(self).frame_counter + 1) % 210,
            final(self).frame_counter % 5 == 0 ==> final(self).rand < 12,
            final(self).frame_counter % 5 != 0 ==> final(self).rand == old(self).rand,
    {
        self.frame_counter = self.frame_counter + 1;
        self.frame_counter = self.frame_counter % 210;
        if self.frame_counter % 5 == 0 {
            self.rand = random_below(12) as u8;
        }
    }

    /// The sprite for the current state.
    pub open spec fn sprite(self) -> GearSpriteID {
        if self.rand == 0 {
            match self.status {
                FlashlightStatus::Off => GearSpriteID::FlashlightOff,
                FlashlightStatus::Low => GearSpriteID::Flashlight2,
                FlashlightStatus::Mid => GearSpriteID::Flashlight1,
                FlashlightStatus::High => GearSpriteID::Flashlight2,
            }
        } else {
            match self.status {
                FlashlightStatus::Off => GearSpriteID::FlashlightOff,
                FlashlightStatus::Low => GearSpriteID::Flashlight1,
                FlashlightStatus::Mid => GearSpriteID::Flashlight2,
                FlashlightStatus::High => GearSpriteID::Flashlight3,
            }
        }
    }

    /// Returns the sprite: the usual one for the setting, or the flicker frame
    /// when the last draw was 0.
    pub fn get_sprite_idx(&self) -> (r: GearSpriteID)
        ensures
            r == self.sprite(),
    {
        if self.rand == 0 {
            match self.status {
                FlashlightStatus::Off => GearSpriteID::FlashlightOff,
                FlashlightStatus::Low => GearSpriteID::Flashlight2,
                FlashlightStatus::Mid => GearSpriteID::Flashlight1,
                FlashlightStatus::High => GearSpriteID::Flashlight2,
            }
        } else {
            match self.status {
                FlashlightStatus::Off => GearSpriteID::FlashlightOff,
                FlashlightStatus::Low => GearSpriteID::Flashlight1,
                FlashlightStatus::Mid => GearSpriteID::Flashlight2,
                FlashlightStatus::High => GearSpriteID::Flashlight3,
            }
        }
    }

    /// Returns the name shown for the gear.
    pub fn get_display_name(&self) -> (r: &'static str)
        ensures
            r@ == "Flashlight"@,
    {
        "Flashlight"
    }

    /// Returns the status line "Flashlight: " followed by the setting's label.
    pub fn get_status(&self) -> (r: String)
        ensures
            r@ == "Flashlight: "@ + (match self.status {
                FlashlightStatus::Off => "OFF"@,
                FlashlightStatus::Low => "LOW"@,
                FlashlightStatus::Mid => "MID"@,
                FlashlightStatus::High => "HI"@,
            }),
    {
        let name = String::from_str("Flashlight: ");
        name.concat(self.status.string())
    }

    /// Moves to the next setting, wrapping from High back to Off.
    pub fn set_trigger(&mut self)
        ensures
            final(self).status == FlashlightStatus::successor(old(self).status),
            final(self).frame_counter == old(self).frame_counter,
            final(self).rand == old(self).rand,
    {
        self.status = match self.status.next() {
            Some(s) => s,
            None => FlashlightStatus::Off,
        };
    }
}

/// Four presses of the trigger bring the flashlight back to its setting.
pub proof fn lemma_flashlight_cycle(s: FlashlightStatus)
    ensures
        FlashlightStatus::successor(
            FlashlightStatus::successor(
                FlashlightStatus::successor(FlashlightStatus::successor(s)),
            ),
        ) == s,
{
}

} // verus!
