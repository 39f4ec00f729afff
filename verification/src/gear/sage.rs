//! The sage bundle: once lit it burns for six seconds, giving off smoke that
//! calms the ghost.

use vstd::prelude::*;

use super::GearSpriteID;

verus! {

/// How long a sage bundle burns, in milliseconds.
pub const SAGE_BURN_MS: u32 = 6000;

/// The sage bundle: whether it is burning, and how long it has burnt (a
/// one-shot timer of `SAGE_BURN_MS`, in milliseconds).
#[derive(Debug, Clone, Copy, PartialEq, Eq, Structural)]
pub struct SageBundleData {
    pub is_active: bool,
    pub burn_elapsed_ms: u32,
}

/// What an update of a burning bundle asks the caller to do.
#[derive(Debug, Clone, Copy, PartialEq, Eq, Structural)]
pub enum SageUpdate {
    /// Nothing happens.
    Idle,
    /// The bundle burnt out on this update.
    BurntOut,
    /// The bundle keeps burning and gives off smoke particles now.
    EmitSmoke,
}

impl SageBundleData {
    /// Creates an unlit bundle.
    pub fn new() -> (r: SageBundleData)
        ensures
            !r.is_active,
            r.burn_elapsed_ms == 0,
    {
        SageBundleData { is_active: false, burn_elapsed_ms: 0 }
    }

    /// Milliseconds of burning left.
    pub open spec fn remaining_ms(self) -> int {
        SAGE_BURN_MS - self.burn_elapsed_ms
    }

    /// Returns the name shown for the gear.
    pub fn get_display_name(&self) -> (r: &'static str)
        ensures
            r@ == "Sage Bundle"@,
    {
        "Sage Bundle"
    }

    /// Returns the description shown for the gear.
    pub fn get_description(&self) -> (r: &'static str)
        ensures
            r@ == "A bundle of sage that, when activated, burns slowly and emits soothing smoke particles that calm the ghost over time."@,
    {
        "A bundle of sage that, when activated, burns slowly and emits soothing smoke particles that calm the ghost over time."
    }

    /// Lights an unlit bundle and restarts its timer; returns whether it was
    /// lit now (when the activation sound plays). A burning bundle is left as is.
    pub fn set_trigger(&mut self) -> (r: bool)
        ensures
            r == !old(self).is_active,
            r ==> final(self).is_active && final(self).burn_elapsed_ms == 0,
            !r ==> *final(self) == *old(self),
    {
        if !self.is_active {
            self.is_active = true;
            self.burn_elapsed_ms = 0;
            true
        } else {
            false
        }
    }

    /// Advances a burning bundle by `delta_ms`. It burns out on the update
    /// that takes its timer to the full duration; otherwise it gives off
    /// smoke when `smoke_phase` holds (the caller's clock is in the first
    /// 0.1 s of each 0.3 s period).
    pub fn update(&mut self, delta_ms: u32, smoke_phase: bool) -> (r: SageUpdate)
        ensures
            !old(self).is_active ==> r == SageUpdate::Idle && *final(self) == *old(self),
            old(self).is_active ==> final(self).burn_elapsed_ms == (if old(self).burn_elapsed_ms
                + delta_ms >= SAGE_BURN_MS {
                SAGE_BURN_MS as int
            } else {
                old(self).burn_elapsed_ms + delta_ms
            }),
            old(self).is_active ==> (r == SageUpdate::BurntOut <==> (old(self).burn_elapsed_ms
                < SAGE_BURN_MS && old(self).burn_elapsed_ms + delta_ms >= SAGE_BURN_MS)),
            old(self).is_active && r == SageUpdate::BurntOut ==> !final(self).is_active,
            old(self).is_active && r != SageUpdate::BurntOut ==> final(self).is_active && (r
                == SageUpdate::EmitSmoke <==> smoke_phase),
    {
        if !self.is_active {
            return SageUpdate::Idle;
        }
        let was_finished = self.burn_elapsed_ms >= SAGE_BURN_MS;
        if was_finished || delta_ms >= SAGE_BURN_MS - self.burn_elapsed_ms {
            self.burn_elapsed_ms = SAGE_BURN_MS;
        } else {
            self.burn_elapsed_ms = self.burn_elapsed_ms + delta_ms;
        }
        let just_finished = !was_finished && self.burn_elapsed_ms >= SAGE_BURN_MS;
        if just_finished {
            self.is_active = false;
            SageUpdate::BurntOut
        } else if smoke_phase {
            SageUpdate::EmitSmoke
        } else {
            SageUpdate::Idle
        }
    }

    /// The sprite for the current state.
    pub open spec fn sprite(self) -> GearSpriteID {
        if !self.is_active {
            GearSpriteID::SageBundle0
        } else if self.remaining_ms() > 4000 {
            GearSpriteID::SageBundle1
        } else if self.remaining_ms() > 2000 {
            GearSpriteID::SageBundle2
        } else if self.remaining_ms() > 0 {
            GearSpriteID::SageBundle3
        } else {
            GearSpriteID::SageBundle4
        }
    }

    /// Returns the sprite: unlit, then one frame per two seconds of burning
    /// left, then burnt out.
    pub fn get_sprite_idx(&self) -> (r: GearSpriteID)
        ensures
            r == self.sprite(),
    {
        if !self.is_active {
            return GearSpriteID::SageBundle0;
        }
        let remaining = if self.burn_elapsed_ms >= SAGE_BURN_MS {
            0
        } else {
            SAGE_BURN_MS - self.burn_elapsed_ms
        };
        if remaining > 4000 {
            return GearSpriteID::SageBundle1;
        }
        if remaining > 2000 {
            return GearSpriteID::SageBundle2;
        }
        if remaining > 0 {
            return GearSpriteID::SageBundle3;
        }
        GearSpriteID::SageBundle4
    }
}

} // verus!
