//! Gear whose state is an on/off switch that the trigger toggles.

use vstd::prelude::*;

use super::{switch_status, switch_status_text, GearSpriteID};

verus! {

/// The Thermometer: a switch that the trigger toggles.
#[derive(Debug, Clone, Copy, PartialEq, Eq, Structural)]
pub struct Thermometer {
    pub enabled: bool,
}

impl Thermometer {
    /// Creates the gear switched off.
    pub fn new() -> (r: Thermometer)
        ensures
            !r.enabled,
    {
        Thermometer { enabled: false }
    }

    /// The sprite for the current state.
    pub open spec fn sprite(self) -> GearSpriteID {
        if self.enabled {
            GearSpriteID::ThermometerOn
        } else {
            GearSpriteID::ThermometerOff
        }
    }

    /// Returns the sprite for the current state.
    pub fn get_sprite_idx(&self) -> (r: GearSpriteID)
        ensures
            r == self.sprite(),
    {
        if self.enabled {
            GearSpriteID::ThermometerOn
        } else {
            GearSpriteID::ThermometerOff
        }
    }

    /// Returns the name shown for the gear.
    pub fn get_display_name(&self) -> (r: &'static str)
        ensures
            r@ == "Thermometer"@,
    {
        "Thermometer"
    }

    /// Toggles the switch.
    pub fn set_trigger(&mut self)
        ensures
            *final(self) == (Thermometer { enabled: !old(self).enabled, ..*old(self) }),
    {
        self.enabled = !self.enabled;
    }
}

/// The EMF Meter: a switch that the trigger toggles.
#[derive(Debug, Clone, Copy, PartialEq, Eq, Structural)]
pub struct EMFMeter {
    pub enabled: bool,
}

impl EMFMeter {
    /// Creates the gear switched off.
    pub fn new() -> (r: EMFMeter)
        ensures
            !r.enabled,
    {
        EMFMeter { enabled: false }
    }

    /// The sprite for the current state.
    pub open spec fn sprite(self) -> GearSpriteID {
        if self.enabled {
            GearSpriteID::EMFMeter0
        } else {
            GearSpriteID::EMFMeterOff
        }
    }

    /// Returns the sprite for the current state.
    pub fn get_sprite_idx(&self) -> (r: GearSpriteID)
        ensures
            r == self.sprite(),
    {
        if self.enabled {
            GearSpriteID::EMFMeter0
        } else {
            GearSpriteID::EMFMeterOff
        }
    }

    /// Returns the name shown for the gear.
    pub fn get_display_name(&self) -> (r: &'static str)
        ensures
            r@ == "EMF Meter"@,
    {
        "EMF Meter"
    }

    /// Toggles the switch.
    pub fn set_trigger(&mut self)
        ensures
            *final(self) == (EMFMeter { enabled: !old(self).enabled, ..*old(self) }),
    {
        self.enabled = !self.enabled;
    }
}

/// The Recorder: a switch that the trigger toggles.
#[derive(Debug, Clone, Copy, PartialEq, Eq, Structural)]
pub struct Recorder {
    pub enabled: bool,
    /// How many of the volume thresholds (5, 15 and 45 dB) the last noisy reading reached; kept up to date by the caller that measures the sound.
    pub loudness_band: u8,
    /// Whether the "EVP RECORDED" notice is showing.
    pub evp_recorded_display: bool,
}

impl Recorder {
    /// Creates the gear switched off.
    pub fn new() -> (r: Recorder)
        ensures
            !r.enabled,
            r.loudness_band == 0,
            r.evp_recorded_display == false,
    {
        Recorder { enabled: false, loudness_band: 0, evp_recorded_display: false }
    }

    /// The sprite for the current state.
    pub open spec fn sprite(self) -> GearSpriteID {
        if !self.enabled {
            GearSpriteID::RecorderOff
        } else if self.loudness_band == 0 {
            GearSpriteID::Recorder1
        } else if self.loudness_band == 1 {
            GearSpriteID::Recorder2
        } else if self.loudness_band == 2 {
            GearSpriteID::Recorder3
        } else {
            GearSpriteID::Recorder4
        }
    }

    /// Returns the sprite for the current state.
    pub fn get_sprite_idx(&self) -> (r: GearSpriteID)
        ensures
            r == self.sprite(),
    {
        if !self.enabled {
            GearSpriteID::RecorderOff
        } else if self.loudness_band == 0 {
            GearSpriteID::Recorder1
        } else if self.loudness_band == 1 {
            GearSpriteID::Recorder2
        } else if self.loudness_band == 2 {
            GearSpriteID::Recorder3
        } else {
            GearSpriteID::Recorder4
        }
    }

    /// Returns the name shown for the gear.
    pub fn get_display_name(&self) -> (r: &'static str)
        ensures
            r@ == "Recorder"@,
    {
        "Recorder"
    }

    /// Toggles the switch.
    pub fn set_trigger(&mut self)
        ensures
            *final(self) == (Recorder { enabled: !old(self).enabled, ..*old(self) }),
    {
        self.enabled = !self.enabled;
    }
}

/// The Geiger Counter: a switch that the trigger toggles.
#[derive(Debug, Clone, Copy, PartialEq, Eq, Structural)]
pub struct GeigerCounter {
    pub enabled: bool,
    /// Whether the smoothed count rate is above the tick threshold; kept up to date by the caller that measures the radiation.
    pub ticking: bool,
}

impl GeigerCounter {
    /// Creates the gear switched off.
    pub fn new() -> (r: GeigerCounter)
        ensures
            !r.enabled,
            r.ticking == false,
    {
        GeigerCounter { enabled: false, ticking: false }
    }

    /// The sprite for the current state.
    pub open spec fn sprite(self) -> GearSpriteID {
        if !self.enabled {
            GearSpriteID::GeigerOff
        } else if self.ticking {
            GearSpriteID::GeigerTick
        } else {
            GearSpriteID::GeigerOn
        }
    }

    /// Returns the sprite for the current state.
    pub fn get_sprite_idx(&self) -> (r: GearSpriteID)
        ensures
            r == self.sprite(),
    {
        if !self.enabled {
            GearSpriteID::GeigerOff
        } else if self.ticking {
            GearSpriteID::GeigerTick
        } else {
            GearSpriteID::GeigerOn
        }
    }

    /// Returns the name shown for the gear.
    pub fn get_display_name(&self) -> (r: &'static str)
        ensures
            r@ == "Geiger Counter"@,
    {
        "Geiger Counter"
    }

    /// Returns the description shown for the gear.
    pub fn get_description(&self) -> (r: &'static str)
        ensures
            r@ == "Measures radioactivity by counting alpha and beta particles. It can be used to roughly locate the ghost with patience."@,
    {
        "Measures radioactivity by counting alpha and beta particles. It can be used to roughly locate the ghost with patience."
    }

    /// Toggles the switch.
    pub fn set_trigger(&mut self)
        ensures
            *final(self) == (GeigerCounter { enabled: !old(self).enabled, ..*old(self) }),
    {
        self.enabled = !self.enabled;
    }
}

/// The UV Torch: a switch that the trigger toggles.
#[derive(Debug, Clone, Copy, PartialEq, Eq, Structural)]
pub struct UVTorch {
    pub enabled: bool,
}

impl UVTorch {
    /// Creates the gear switched off.
    pub fn new() -> (r: UVTorch)
        ensures
            !r.enabled,
    {
        UVTorch { enabled: false }
    }

    /// The sprite for the current state.
    pub open spec fn sprite(self) -> GearSpriteID {
        if self.enabled {
            GearSpriteID::UVTorchOn
        } else {
            GearSpriteID::UVTorchOff
        }
    }

    /// Returns the sprite for the current state.
    pub fn get_sprite_idx(&self) -> (r: GearSpriteID)
        ensures
            r == self.sprite(),
    {
        if self.enabled {
            GearSpriteID::UVTorchOn
        } else {
            GearSpriteID::UVTorchOff
        }
    }

    /// Returns the name shown for the gear.
    pub fn get_display_name(&self) -> (r: &'static str)
        ensures
            r@ == "UV Torch"@,
    {
        "UV Torch"
    }

    /// Returns the description shown for the gear.
    pub fn get_description(&self) -> (r: &'static str)
        ensures
            r@ == "Ultraviolet light that can be used to expose evidence invisible to the naked eye since some substances react to it and glow."@,
    {
        "Ultraviolet light that can be used to expose evidence invisible to the naked eye since some substances react to it and glow."
    }

    /// Toggles the switch.
    pub fn set_trigger(&mut self)
        ensures
            *final(self) == (UVTorch { enabled: !old(self).enabled, ..*old(self) }),
    {
        self.enabled = !self.enabled;
    }

    /// Returns the status: the name, "ON" or "OFF", and "Battery: 47%" while on.
    pub fn get_status(&self) -> (r: String)
        ensures
            r@ == switch_status("UV Torch"@, self.enabled, "Battery: 47%"@),
    {
        switch_status_text(self.get_display_name(), self.enabled, "Battery: 47%")
    }
}

/// The Ion Meter: a switch that the trigger toggles.
#[derive(Debug, Clone, Copy, PartialEq, Eq, Structural)]
pub struct IonMeter {
    pub enabled: bool,
}

impl IonMeter {
    /// Creates the gear switched off.
    pub fn new() -> (r: IonMeter)
        ensures
            !r.enabled,
    {
        IonMeter { enabled: false }
    }

    /// The sprite for the current state.
    pub open spec fn sprite(self) -> GearSpriteID {
        if self.enabled {
            GearSpriteID::IonMeter0
        } else {
            GearSpriteID::IonMeterOff
        }
    }

    /// Returns the sprite for the current state.
    pub fn get_sprite_idx(&self) -> (r: GearSpriteID)
        ensures
            r == self.sprite(),
    {
        if self.enabled {
            GearSpriteID::IonMeter0
        } else {
            GearSpriteID::IonMeterOff
        }
    }

    /// Returns the name shown for the gear.
    pub fn get_display_name(&self) -> (r: &'static str)
        ensures
            r@ == "Ion Meter"@,
    {
        "Ion Meter"
    }

    /// Toggles the switch.
    pub fn set_trigger(&mut self)
        ensures
            *final(self) == (IonMeter { enabled: !old(self).enabled, ..*old(self) }),
    {
        self.enabled = !self.enabled;
    }
}

/// The Spirit Box: a switch that the trigger toggles.
#[derive(Debug, Clone, Copy, PartialEq, Eq, Structural)]
pub struct SpiritBox {
    pub enabled: bool,
}

impl SpiritBox {
    /// Creates the gear switched off.
    pub fn new() -> (r: SpiritBox)
        ensures
            !r.enabled,
    {
        SpiritBox { enabled: false }
    }

    /// The sprite for the current state.
    pub open spec fn sprite(self) -> GearSpriteID {
        if self.enabled {
            GearSpriteID::SpiritBoxScan1
        } else {
            GearSpriteID::SpiritBoxOff
        }
    }

    /// Returns the sprite for the current state.
    pub fn get_sprite_idx(&self) -> (r: GearSpriteID)
        ensures
            r == self.sprite(),
    {
        if self.enabled {
            GearSpriteID::SpiritBoxScan1
        } else {
            GearSpriteID::SpiritBoxOff
        }
    }

    /// Returns the name shown for the gear.
    pub fn get_display_name(&self) -> (r: &'static str)
        ensures
            r@ == "Spirit Box"@,
    {
        "Spirit Box"
    }

    /// Toggles the switch.
    pub fn set_trigger(&mut self)
        ensures
            *final(self) == (SpiritBox { enabled: !old(self).enabled, ..*old(self) }),
    {
        self.enabled = !self.enabled;
    }

    /// Returns the status: the name, "ON" or "OFF", and "Scanning.." while on.
    pub fn get_status(&self) -> (r: String)
        ensures
            r@ == switch_status("Spirit Box"@, self.enabled, "Scanning.."@),
    {
        switch_status_text(self.get_display_name(), self.enabled, "Scanning..")
    }
}

/// The Thermal Imager: a switch that the trigger toggles.
#[derive(Debug, Clone, Copy, PartialEq, Eq, Structural)]
pub struct ThermalImager {
    pub enabled: bool,
}

impl ThermalImager {
    /// Creates the gear switched off.
    pub fn new() -> (r: ThermalImager)
        ensures
            !r.enabled,
    {
        ThermalImager { enabled: false }
    }

    /// The sprite for the current state.
    pub open spec fn sprite(self) -> GearSpriteID {
        if self.enabled {
            GearSpriteID::ThermalImagerOn
        } else {
            GearSpriteID::ThermalImagerOff
        }
    }

    /// Returns the sprite for the current state.
    pub fn get_sprite_idx(&self) -> (r: GearSpriteID)
        ensures
            r == self.sprite(),
    {
        if self.enabled {
            GearSpriteID::ThermalImagerOn
        } else {
            GearSpriteID::ThermalImagerOff
        }
    }

    /// Returns the name shown for the gear.
    pub fn get_display_name(&self) -> (r: &'static str)
        ensures
            r@ == "Thermal Imager"@,
    {
        "Thermal Imager"
    }

    /// Toggles the switch.
    pub fn set_trigger(&mut self)
        ensures
            *final(self) == (ThermalImager { enabled: !old(self).enabled, ..*old(self) }),
    {
        self.enabled = !self.enabled;
    }
}

/// The Red Torch: a switch that the trigger toggles.
#[derive(Debug, Clone, Copy, PartialEq, Eq, Structural)]
pub struct RedTorch {
    pub enabled: bool,
}

impl RedTorch {
    /// Creates the gear switched off.
    pub fn new() -> (r: RedTorch)
        ensures
            !r.enabled,
    {
        RedTorch { enabled: false }
    }

    /// The sprite for the current state.
    pub open spec fn sprite(self) -> GearSpriteID {
        if self.enabled {
            GearSpriteID::RedTorchOn
        } else {
            GearSpriteID::RedTorchOff
        }
    }

    /// Returns the sprite for the current state.
    pub fn get_sprite_idx(&self) -> (r: GearSpriteID)
        ensures
            r == self.sprite(),
    {
        if self.enabled {
            GearSpriteID::RedTorchOn
        } else {
            GearSpriteID::RedTorchOff
        }
    }

    /// Returns the name shown for the gear.
    pub fn get_display_name(&self) -> (r: &'static str)
        ensures
            r@ == "Red Torch"@,
    {
        "Red Torch"
    }

    /// Returns the description shown for the gear.
    pub fn get_description(&self) -> (r: &'static str)
        ensures
            r@ == "A simple red light used by astronomers to see on the dark without losing night vision eye's adaptation. But the ghost might also react to this too."@,
    {
        "A simple red light used by astronomers to see on the dark without losing night vision eye's adaptation. But the ghost might also react to this too."
    }

    /// Toggles the switch.
    pub fn set_trigger(&mut self)
        ensures
            *final(self) == (RedTorch { enabled: !old(self).enabled, ..*old(self) }),
    {
        self.enabled = !self.enabled;
    }

    /// Returns the status: the name, "ON" or "OFF", and "Battery: 40%" while on.
    pub fn get_status(&self) -> (r: String)
        ensures
            r@ == switch_status("Red Torch"@, self.enabled, "Battery: 40%"@),
    {
        switch_status_text(self.get_display_name(), self.enabled, "Battery: 40%")
    }
}

/// The Photo Camera: a switch that the trigger toggles.
#[derive(Debug, Clone, Copy, PartialEq, Eq, Structural)]
pub struct Photocam {
    pub enabled: bool,
}

impl Photocam {
    /// Creates the gear switched off.
    pub fn new() -> (r: Photocam)
        ensures
            !r.enabled,
    {
        Photocam { enabled: false }
    }

    /// The sprite for the current state.
    pub open spec fn sprite(self) -> GearSpriteID {
        if self.enabled {
            GearSpriteID::PhotocamFlash2
        } else {
            GearSpriteID::Photocam
        }
    }

    /// Returns the sprite for the current state.
    pub fn get_sprite_idx(&self) -> (r: GearSpriteID)
        ensures
            r == self.sprite(),
    {
        if self.enabled {
            GearSpriteID::PhotocamFlash2
        } else {
            GearSpriteID::Photocam
        }
    }

    /// Returns the name shown for the gear.
    pub fn get_display_name(&self) -> (r: &'static str)
        ensures
            r@ == "Photo Camera"@,
    {
        "Photo Camera"
    }

    /// Toggles the switch.
    pub fn set_trigger(&mut self)
        ensures
            *final(self) == (Photocam { enabled: !old(self).enabled, ..*old(self) }),
    {
        self.enabled = !self.enabled;
    }

    /// Returns the status: the name, "ON" or "OFF", and "Flashy!" while on.
    pub fn get_status(&self) -> (r: String)
        ensures
            r@ == switch_status("Photo Camera"@, self.enabled, "Flashy!"@),
    {
        switch_status_text(self.get_display_name(), self.enabled, "Flashy!")
    }
}

/// The Compass: a switch that the trigger toggles.
#[derive(Debug, Clone, Copy, PartialEq, Eq, Structural)]
pub struct Compass {
    pub enabled: bool,
}

impl Compass {
    /// Creates the gear switched off.
    pub fn new() -> (r: Compass)
        ensures
            !r.enabled,
    {
        Compass { enabled: false }
    }

    /// The sprite for the current state.
    pub open spec fn sprite(self) -> GearSpriteID {
        if self.enabled {
            GearSpriteID::Compass
        } else {
            GearSpriteID::Compass
        }
    }

    /// Returns the sprite for the current state.
    pub fn get_sprite_idx(&self) -> (r: GearSpriteID)
        ensures
            r == self.sprite(),
    {
        if self.enabled {
            GearSpriteID::Compass
        } else {
            GearSpriteID::Compass
        }
    }

    /// Returns the name shown for the gear.
    pub fn get_display_name(&self) -> (r: &'static str)
        ensures
            r@ == "Compass"@,
    {
        "Compass"
    }

    /// Toggles the switch.
    pub fn set_trigger(&mut self)
        ensures
            *final(self) == (Compass { enabled: !old(self).enabled, ..*old(self) }),
    {
        self.enabled = !self.enabled;
    }
}

/// The Electrostatic Meter: a switch that the trigger toggles.
#[derive(Debug, Clone, Copy, PartialEq, Eq, Structural)]
pub struct EStaticMeter {
    pub enabled: bool,
}

impl EStaticMeter {
    /// Creates the gear switched off.
    pub fn new() -> (r: EStaticMeter)
        ensures
            !r.enabled,
    {
        EStaticMeter { enabled: false }
    }

    /// The sprite for the current state.
    pub open spec fn sprite(self) -> GearSpriteID {
        if self.enabled {
            GearSpriteID::EStaticMeter
        } else {
            GearSpriteID::EStaticMeter
        }
    }

    /// Returns the sprite for the current state.
    pub fn get_sprite_idx(&self) -> (r: GearSpriteID)
        ensures
            r == self.sprite(),
    {
        if self.enabled {
            GearSpriteID::EStaticMeter
        } else {
            GearSpriteID::EStaticMeter
        }
    }

    /// Returns the name shown for the gear.
    pub fn get_display_name(&self) -> (r: &'static str)
        ensures
            r@ == "Electrostatic Meter"@,
    {
        "Electrostatic Meter"
    }

    /// Toggles the switch.
    pub fn set_trigger(&mut self)
        ensures
            *final(self) == (EStaticMeter { enabled: !old(self).enabled, ..*old(self) }),
    {
        self.enabled = !self.enabled;
    }
}

/// The Video Camera NV: a switch that the trigger toggles.
#[derive(Debug, Clone, Copy, PartialEq, Eq, Structural)]
pub struct Videocam {
    pub enabled: bool,
}

impl Videocam {
    /// Creates the gear switched off.
    pub fn new() -> (r: Videocam)
        ensures
            !r.enabled,
    {
        Videocam { enabled: false }
    }

    /// The sprite for the current state.
    pub open spec fn sprite(self) -> GearSpriteID {
        if self.enabled {
            GearSpriteID::Videocam
        } else {
            GearSpriteID::Videocam
        }
    }

    /// Returns the sprite for the current state.
    pub fn get_sprite_idx(&self) -> (r: GearSpriteID)
        ensures
            r == self.sprite(),
    {
        if self.enabled {
            GearSpriteID::Videocam
        } else {
            GearSpriteID::Videocam
        }
    }

    /// Returns the name shown for the gear.
    pub fn get_display_name(&self) -> (r: &'static str)
        ensures
            r@ == "Video Camera NV"@,
    {
        "Video Camera NV"
    }

    /// Returns the description shown for the gear.
    pub fn get_description(&self) -> (r: &'static str)
        ensures
            r@ == "Mainly used for its infrared night vision, it can also transmit images to the van in real time."@,
    {
        "Mainly used for its infrared night vision, it can also transmit images to the van in real time."
    }

    /// Toggles the switch.
    pub fn set_trigger(&mut self)
        ensures
            *final(self) == (Videocam { enabled: !old(self).enabled, ..*old(self) }),
    {
        self.enabled = !self.enabled;
    }

    /// Returns the status: the name, "ON" or "OFF", and "NIGHT VISION ON" while on.
    pub fn get_status(&self) -> (r: String)
        ensures
            r@ == switch_status("Video Camera NV"@, self.enabled, "NIGHT VISION ON"@),
    {
        switch_status_text(self.get_display_name(), self.enabled, "NIGHT VISION ON")
    }
}

/// The Motion Sensor: a switch that the trigger toggles.
#[derive(Debug, Clone, Copy, PartialEq, Eq, Structural)]
pub struct MotionSensor {
    pub enabled: bool,
}

impl MotionSensor {
    /// Creates the gear switched off.
    pub fn new() -> (r: MotionSensor)
        ensures
            !r.enabled,
    {
        MotionSensor { enabled: false }
    }

    /// The sprite for the current state.
    pub open spec fn sprite(self) -> GearSpriteID {
        if self.enabled {
            GearSpriteID::MotionSensor
        } else {
            GearSpriteID::MotionSensor
        }
    }

    /// Returns the sprite for the current state.
    pub fn get_sprite_idx(&self) -> (r: GearSpriteID)
        ensures
            r == self.sprite(),
    {
        if self.enabled {
            GearSpriteID::MotionSensor
        } else {
            GearSpriteID::MotionSensor
        }
    }

    /// Returns the name shown for the gear.
    pub fn get_display_name(&self) -> (r: &'static str)
        ensures
            r@ == "Motion Sensor"@,
    {
        "Motion Sensor"
    }

    /// Toggles the switch.
    pub fn set_trigger(&mut self)
        ensures
            *final(self) == (MotionSensor { enabled: !old(self).enabled, ..*old(self) }),
    {
        self.enabled = !self.enabled;
    }

    /// Returns the status: the name, "ON" or "OFF", and "--" while on.
    pub fn get_status(&self) -> (r: String)
        ensures
            r@ == switch_status("Motion Sensor"@, self.enabled, "--"@),
    {
        switch_status_text(self.get_display_name(), self.enabled, "--")
    }
}

} // verus!
