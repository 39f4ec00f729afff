//! Gear the player carries: sprite identifiers, the kinds of gear, and the
//! dispatch of the common gear operations to each kind.

pub mod flashlight;
pub mod playergear;
pub mod quartz;
pub mod repellentflask;
pub mod sage;
pub mod salt;
pub mod switchable;
pub mod ui;

use vstd::prelude::*;

use self::flashlight::{Flashlight, FlashlightStatus};
use self::quartz::QuartzStoneData;
use self::repellentflask::RepellentFlask;
use self::sage::SageBundleData;
use self::salt::SaltData;
use self::switchable::{
    Compass, EMFMeter, EStaticMeter, GeigerCounter, IonMeter, MotionSensor, Photocam, Recorder,
    RedTorch, SpiritBox, ThermalImager, Thermometer, UVTorch, Videocam,
};

verus! {

/// Identifies a frame of the gear spritesheet.
#[derive(Debug, Clone, Copy, PartialEq, Eq, Structural)]
pub enum GearSpriteID {
    ThermometerOff,
    ThermometerOn,
    ThermalImagerOff,
    ThermalImagerOn,
    EMFMeterOff,
    EMFMeter0,
    EMFMeter1,
    EMFMeter2,
    EMFMeter3,
    EMFMeter4,
    RecorderOff,
    Recorder1,
    Recorder2,
    Recorder3,
    Recorder4,
    FlashlightOff,
    Flashlight1,
    Flashlight2,
    Flashlight3,
    GeigerOff,
    GeigerOn,
    GeigerTick,
    RedTorchOff,
    RedTorchOn,
    UVTorchOff,
    UVTorchOn,
    Photocam,
    PhotocamFlash1,
    PhotocamFlash2,
    IonMeterOff,
    IonMeter0,
    IonMeter1,
    IonMeter2,
    SpiritBoxOff,
    SpiritBoxScan1,
    SpiritBoxScan2,
    SpiritBoxScan3,
    SpiritBoxAns1,
    SpiritBoxAns2,
    RepelentFlaskEmpty,
    RepelentFlaskFull,
    QuartzStone0,
    QuartzStone1,
    QuartzStone2,
    QuartzStone3,
    QuartzStone4,
    Salt4,
    Salt3,
    Salt2,
    Salt1,
    Salt0,
    Compass,
    SageBundle0,
    SageBundle1,
    SageBundle2,
    SageBundle3,
    SageBundle4,
    EStaticMeter,
    Videocam,
    MotionSensor,
    Blank,
}

impl GearSpriteID {
    /// The position of the frame in the gear spritesheet.
    pub open spec fn idx(self) -> int {
        match self {
            GearSpriteID::ThermometerOff => 0,
            GearSpriteID::ThermometerOn => 1,
            GearSpriteID::ThermalImagerOff => 2,
            GearSpriteID::ThermalImagerOn => 3,
            GearSpriteID::EMFMeterOff => 10,
            GearSpriteID::EMFMeter0 => 11,
            GearSpriteID::EMFMeter1 => 12,
            GearSpriteID::EMFMeter2 => 13,
            GearSpriteID::EMFMeter3 => 14,
            GearSpriteID::EMFMeter4 => 15,
            GearSpriteID::RecorderOff => 20,
            GearSpriteID::Recorder1 => 21,
            GearSpriteID::Recorder2 => 22,
            GearSpriteID::Recorder3 => 23,
            GearSpriteID::Recorder4 => 24,
            GearSpriteID::FlashlightOff => 30,
            GearSpriteID::Flashlight1 => 31,
            GearSpriteID::Flashlight2 => 32,
            GearSpriteID::Flashlight3 => 33,
            GearSpriteID::GeigerOff => 34,
            GearSpriteID::GeigerOn => 35,
            GearSpriteID::GeigerTick => 36,
            GearSpriteID::RedTorchOff => 40,
            GearSpriteID::RedTorchOn => 41,
            GearSpriteID::UVTorchOff => 42,
            GearSpriteID::UVTorchOn => 43,
            GearSpriteID::Photocam => 44,
            GearSpriteID::PhotocamFlash1 => 45,
            GearSpriteID::PhotocamFlash2 => 46,
            GearSpriteID::IonMeterOff => 50,
            GearSpriteID::IonMeter0 => 51,
            GearSpriteID::IonMeter1 => 52,
            GearSpriteID::IonMeter2 => 53,
            GearSpriteID::SpiritBoxOff => 54,
            GearSpriteID::SpiritBoxScan1 => 55,
            GearSpriteID::SpiritBoxScan2 => 56,
            GearSpriteID::SpiritBoxScan3 => 57,
            GearSpriteID::SpiritBoxAns1 => 58,
            GearSpriteID::SpiritBoxAns2 => 59,
            GearSpriteID::RepelentFlaskEmpty => 60,
            GearSpriteID::RepelentFlaskFull => 61,
            GearSpriteID::QuartzStone0 => 65,
            GearSpriteID::QuartzStone1 => 66,
            GearSpriteID::QuartzStone2 => 67,
            GearSpriteID::QuartzStone3 => 68,
            GearSpriteID::QuartzStone4 => 69,
            GearSpriteID::Salt4 => 75,
            GearSpriteID::Salt3 => 76,
            GearSpriteID::Salt2 => 77,
            GearSpriteID::Salt1 => 78,
            GearSpriteID::Salt0 => 79,
            GearSpriteID::Compass => 80,
            GearSpriteID::SageBundle0 => 85,
            GearSpriteID::SageBundle1 => 86,
            GearSpriteID::SageBundle2 => 87,
            GearSpriteID::SageBundle3 => 88,
            GearSpriteID::SageBundle4 => 89,
            GearSpriteID::EStaticMeter => 90,
            GearSpriteID::Videocam => 91,
            GearSpriteID::MotionSensor => 92,
            GearSpriteID::Blank => 93,
        }
    }

    /// Returns the position of the frame in the gear spritesheet.
    pub fn index(&self) -> (r: usize)
        ensures
            r == self.idx(),
    {
        match self {
            GearSpriteID::ThermometerOff => 0,
            GearSpriteID::ThermometerOn => 1,
            GearSpriteID::ThermalImagerOff => 2,
            GearSpriteID::ThermalImagerOn => 3,
            GearSpriteID::EMFMeterOff => 10,
            GearSpriteID::EMFMeter0 => 11,
            GearSpriteID::EMFMeter1 => 12,
            GearSpriteID::EMFMeter2 => 13,
            GearSpriteID::EMFMeter3 => 14,
            GearSpriteID::EMFMeter4 => 15,
            GearSpriteID::RecorderOff => 20,
            GearSpriteID::Recorder1 => 21,
            GearSpriteID::Recorder2 => 22,
            GearSpriteID::Recorder3 => 23,
            GearSpriteID::Recorder4 => 24,
            GearSpriteID::FlashlightOff => 30,
            GearSpriteID::Flashlight1 => 31,
            GearSpriteID::Flashlight2 => 32,
            GearSpriteID::Flashlight3 => 33,
            GearSpriteID::GeigerOff => 34,
            GearSpriteID::GeigerOn => 35,
            GearSpriteID::GeigerTick => 36,
            GearSpriteID::RedTorchOff => 40,
            GearSpriteID::RedTorchOn => 41,
            GearSpriteID::UVTorchOff => 42,
            GearSpriteID::UVTorchOn => 43,
            GearSpriteID::Photocam => 44,
            GearSpriteID::PhotocamFlash1 => 45,
            GearSpriteID::PhotocamFlash2 => 46,
            GearSpriteID::IonMeterOff => 50,
            GearSpriteID::IonMeter0 => 51,
            GearSpriteID::IonMeter1 => 52,
            GearSpriteID::IonMeter2 => 53,
            GearSpriteID::SpiritBoxOff => 54,
            GearSpriteID::SpiritBoxScan1 => 55,
            GearSpriteID::SpiritBoxScan2 => 56,
            GearSpriteID::SpiritBoxScan3 => 57,
            GearSpriteID::SpiritBoxAns1 => 58,
            GearSpriteID::SpiritBoxAns2 => 59,
            GearSpriteID::RepelentFlaskEmpty => 60,
            GearSpriteID::RepelentFlaskFull => 61,
            GearSpriteID::QuartzStone0 => 65,
            GearSpriteID::QuartzStone1 => 66,
            GearSpriteID::QuartzStone2 => 67,
            GearSpriteID::QuartzStone3 => 68,
            GearSpriteID::QuartzStone4 => 69,
            GearSpriteID::Salt4 => 75,
            GearSpriteID::Salt3 => 76,
            GearSpriteID::Salt2 => 77,
            GearSpriteID::Salt1 => 78,
            GearSpriteID::Salt0 => 79,
            GearSpriteID::Compass => 80,
            GearSpriteID::SageBundle0 => 85,
            GearSpriteID::SageBundle1 => 86,
            GearSpriteID::SageBundle2 => 87,
            GearSpriteID::SageBundle3 => 88,
            GearSpriteID::SageBundle4 => 89,
            GearSpriteID::EStaticMeter => 90,
            GearSpriteID::Videocam => 91,
            GearSpriteID::MotionSensor => 92,
            GearSpriteID::Blank => 93,
        }
    }
}

/// Converts a boolean to "ON" or "OFF".
pub fn on_off(s: bool) -> (r: &'static str)
    ensures
        r@ == (if s {
            "ON"@
        } else {
            "OFF"@
        }),
{
    match s {
        true => "ON",
        false => "OFF",
    }
}

/// The status of a switchable gear: its name, "ON" or "OFF", and on a second
/// line `reading` while switched on.
pub open spec fn switch_status(name: Seq<char>, enabled: bool, reading: Seq<char>) -> Seq<char> {
    name + ": "@ + (if enabled {
        "ON"@
    } else {
        "OFF"@
    }) + "\n"@ + (if enabled {
        reading
    } else {
        ""@
    })
}

/// Returns the status of a switchable gear; see `switch_status`.
pub fn switch_status_text(name: &str, enabled: bool, reading: &str) -> (r: String)
    ensures
        r@ == switch_status(name@, enabled, reading@),
{
    let msg = if enabled {
        reading
    } else {
        ""
    };
    let r = String::from_str(name).concat(": ").concat(on_off(enabled)).concat("\n").concat(msg);
    r
}

/// The kinds of gear, each with its own state.
#[derive(Debug, Clone, Copy, PartialEq, Eq, Structural)]
pub enum GearKind {
    Thermometer(Thermometer),
    EMFMeter(EMFMeter),
    Recorder(Recorder),
    Flashlight(Flashlight),
    GeigerCounter(GeigerCounter),
    UVTorch(UVTorch),
    IonMeter(IonMeter),
    SpiritBox(SpiritBox),
    ThermalImager(ThermalImager),
    RedTorch(RedTorch),
    Photocam(Photocam),
    Compass(Compass),
    EStaticMeter(EStaticMeter),
    Videocam(Videocam),
    MotionSensor(MotionSensor),
    RepellentFlask(RepellentFlask),
    QuartzStone(QuartzStoneData),
    Salt(SaltData),
    SageBundle(SageBundleData),
    Empty,
}

impl GearKind {
    /// Returns whether this is the empty slot.
    pub fn is_none(&self) -> (r: bool)
        ensures
            r == (*self is Empty),
    {
        match self {
            GearKind::Empty => true,
            _ => false,
        }
    }

    /// Returns whether this holds a piece of gear.
    pub fn is_some(&self) -> (r: bool)
        ensures
            r == !(*self is Empty),
    {
        !self.is_none()
    }
}

/// A slot holding a piece of gear, or nothing.
#[derive(Debug, Clone, Copy, PartialEq, Eq, Structural)]
pub struct Gear {
    pub kind: GearKind,
}

impl Gear {
    /// Creates an empty slot.
    pub fn none() -> (r: Gear)
        ensures
            r.kind == GearKind::Empty,
    {
        Gear { kind: GearKind::Empty }
    }

    /// Creates a slot holding the given gear.
    pub fn new_from_kind(kind: GearKind) -> (r: Gear)
        ensures
            r.kind == kind,
    {
        Gear { kind }
    }

    /// Takes the content of the slot out, leaving the slot empty.
    pub fn take(&mut self) -> (r: Gear)
        ensures
            r == *old(self),
            final(self).kind == GearKind::Empty,
    {
        let mut new = Gear::none();
        std::mem::swap(&mut new, self);
        new
    }
}

impl GearKind {
    /// The name shown for the gear; empty for the empty slot.
    pub open spec fn display_name(self) -> Seq<char> {
        match self {
            GearKind::Thermometer(_) => "Thermometer"@,
            GearKind::EMFMeter(_) => "EMF Meter"@,
            GearKind::Recorder(_) => "Recorder"@,
            GearKind::Flashlight(_) => "Flashlight"@,
            GearKind::GeigerCounter(_) => "Geiger Counter"@,
            GearKind::UVTorch(_) => "UV Torch"@,
            GearKind::IonMeter(_) => "Ion Meter"@,
            GearKind::SpiritBox(_) => "Spirit Box"@,
            GearKind::ThermalImager(_) => "Thermal Imager"@,
            GearKind::RedTorch(_) => "Red Torch"@,
            GearKind::Photocam(_) => "Photo Camera"@,
            GearKind::Compass(_) => "Compass"@,
            GearKind::EStaticMeter(_) => "Electrostatic Meter"@,
            GearKind::Videocam(_) => "Video Camera NV"@,
            GearKind::MotionSensor(_) => "Motion Sensor"@,
            GearKind::RepellentFlask(_) => "Unhaunter Repellent"@,
            GearKind::QuartzStone(_) => "Quartz Stone"@,
            GearKind::Salt(_) => "Salt"@,
            GearKind::SageBundle(_) => "Sage Bundle"@,
            GearKind::Empty => ""@,
        }
    }

    /// The description shown for the gear; empty for gear that has none and
    /// for the empty slot.
    pub open spec fn description(self) -> Seq<char> {
        match self {
            GearKind::GeigerCounter(_) => "Measures radioactivity by counting alpha and beta particles. It can be used to roughly locate the ghost with patience."@,
            GearKind::UVTorch(_) => "Ultraviolet light that can be used to expose evidence invisible to the naked eye since some substances react to it and glow."@,
            GearKind::RedTorch(_) => "A simple red light used by astronomers to see on the dark without losing night vision eye's adaptation. But the ghost might also react to this too."@,
            GearKind::Videocam(_) => "Mainly used for its infrared night vision, it can also transmit images to the van in real time."@,
            GearKind::RepellentFlask(_) => "Crafted in the van, specifically targeting a single ghost type to be effective enough to expel a ghost."@,
            GearKind::QuartzStone(_) => "A protective charm that absorbs the ghost's hunting energy, preventing or shortening hunts. The stone gradually cracks and eventually breaks after repeated uses."@,
            GearKind::Salt(_) => "A bottle containing four charges of salt. Players can drop salt piles to repel the ghost and create temporary trails of UV-reactive salt particles."@,
            GearKind::SageBundle(_) => "A bundle of sage that, when activated, burns slowly and emits soothing smoke particles that calm the ghost over time."@,
            _ => ""@,
        }
    }

    /// The sprite for the gear's current state.
    pub open spec fn sprite(self) -> GearSpriteID {
        match self {
            GearKind::Thermometer(x) => x.sprite(),
            GearKind::EMFMeter(x) => x.sprite(),
            GearKind::Recorder(x) => x.sprite(),
            GearKind::Flashlight(x) => x.sprite(),
            GearKind::GeigerCounter(x) => x.sprite(),
            GearKind::UVTorch(x) => x.sprite(),
            GearKind::IonMeter(x) => x.sprite(),
            GearKind::SpiritBox(x) => x.sprite(),
            GearKind::ThermalImager(x) => x.sprite(),
            GearKind::RedTorch(x) => x.sprite(),
            GearKind::Photocam(x) => x.sprite(),
            GearKind::Compass(x) => x.sprite(),
            GearKind::EStaticMeter(x) => x.sprite(),
            GearKind::Videocam(x) => x.sprite(),
            GearKind::MotionSensor(x) => x.sprite(),
            GearKind::RepellentFlask(x) => x.sprite(),
            GearKind::QuartzStone(x) => x.sprite(),
            GearKind::Salt(x) => x.sprite(),
            GearKind::SageBundle(x) => x.sprite(),
            GearKind::Empty => GearSpriteID::Blank,
        }
    }
}

impl Gear {
    /// Returns the name shown for the gear in the slot.
    pub fn get_display_name(&self) -> (r: &'static str)
        ensures
            r@ == self.kind.display_name(),
    {
        match &self.kind {
            GearKind::Thermometer(x) => x.get_display_name(),
            GearKind::EMFMeter(x) => x.get_display_name(),
            GearKind::Recorder(x) => x.get_display_name(),
            GearKind::Flashlight(x) => x.get_display_name(),
            GearKind::GeigerCounter(x) => x.get_display_name(),
            GearKind::UVTorch(x) => x.get_display_name(),
            GearKind::IonMeter(x) => x.get_display_name(),
            GearKind::SpiritBox(x) => x.get_display_name(),
            GearKind::ThermalImager(x) => x.get_display_name(),
            GearKind::RedTorch(x) => x.get_display_name(),
            GearKind::Photocam(x) => x.get_display_name(),
            GearKind::Compass(x) => x.get_display_name(),
            GearKind::EStaticMeter(x) => x.get_display_name(),
            GearKind::Videocam(x) => x.get_display_name(),
            GearKind::MotionSensor(x) => x.get_display_name(),
            GearKind::RepellentFlask(x) => x.get_display_name(),
            GearKind::QuartzStone(x) => x.get_display_name(),
            GearKind::Salt(x) => x.get_display_name(),
            GearKind::SageBundle(x) => x.get_display_name(),
            GearKind::Empty => "",
        }
    }

    /// Returns the description shown for the gear in the slot.
    pub fn get_description(&self) -> (r: &'static str)
        ensures
            r@ == self.kind.description(),
    {
        match &self.kind {
            GearKind::GeigerCounter(x) => x.get_description(),
            GearKind::UVTorch(x) => x.get_description(),
            GearKind::RedTorch(x) => x.get_description(),
            GearKind::Videocam(x) => x.get_description(),
            GearKind::RepellentFlask(x) => x.get_description(),
            GearKind::QuartzStone(x) => x.get_description(),
            GearKind::Salt(x) => x.get_description(),
            GearKind::SageBundle(x) => x.get_description(),
            _ => "",
        }
    }

    /// Returns the sprite for the gear in the slot.
    pub fn get_sprite_idx(&self) -> (r: GearSpriteID)
        ensures
            r == self.kind.sprite(),
    {
        match &self.kind {
            GearKind::Thermometer(x) => x.get_sprite_idx(),
            GearKind::EMFMeter(x) => x.get_sprite_idx(),
            GearKind::Recorder(x) => x.get_sprite_idx(),
            GearKind::Flashlight(x) => x.get_sprite_idx(),
            GearKind::GeigerCounter(x) => x.get_sprite_idx(),
            GearKind::UVTorch(x) => x.get_sprite_idx(),
            GearKind::IonMeter(x) => x.get_sprite_idx(),
            GearKind::SpiritBox(x) => x.get_sprite_idx(),
            GearKind::ThermalImager(x) => x.get_sprite_idx(),
            GearKind::RedTorch(x) => x.get_sprite_idx(),
            GearKind::Photocam(x) => x.get_sprite_idx(),
            GearKind::Compass(x) => x.get_sprite_idx(),
            GearKind::EStaticMeter(x) => x.get_sprite_idx(),
            GearKind::Videocam(x) => x.get_sprite_idx(),
            GearKind::MotionSensor(x) => x.get_sprite_idx(),
            GearKind::RepellentFlask(x) => x.get_sprite_idx(),
            GearKind::QuartzStone(x) => x.get_sprite_idx(),
            GearKind::Salt(x) => x.get_sprite_idx(),
            GearKind::SageBundle(x) => x.get_sprite_idx(),
            GearKind::Empty => GearSpriteID::Blank,
        }
    }
}

impl GearKind {
    /// The gear after its trigger is pressed: switches toggle, the
    /// flashlight moves to its next setting, a filled flask starts emptying,
    /// salt schedules a pile while charges are left, sage lights when unlit;
    /// the quartz stone and the empty slot do not react.
    pub open spec fn triggered(self) -> GearKind {
        match self {
            GearKind::Thermometer(x) => GearKind::Thermometer((Thermometer { enabled: !x.enabled, ..x })),
            GearKind::EMFMeter(x) => GearKind::EMFMeter((EMFMeter { enabled: !x.enabled, ..x })),
            GearKind::Recorder(x) => GearKind::Recorder((Recorder { enabled: !x.enabled, ..x })),
            GearKind::GeigerCounter(x) => GearKind::GeigerCounter((GeigerCounter { enabled: !x.enabled, ..x })),
            GearKind::UVTorch(x) => GearKind::UVTorch((UVTorch { enabled: !x.enabled, ..x })),
            GearKind::IonMeter(x) => GearKind::IonMeter((IonMeter { enabled: !x.enabled, ..x })),
            GearKind::SpiritBox(x) => GearKind::SpiritBox((SpiritBox { enabled: !x.enabled, ..x })),
            GearKind::ThermalImager(x) => GearKind::ThermalImager((ThermalImager { enabled: !x.enabled, ..x })),
            GearKind::RedTorch(x) => GearKind::RedTorch((RedTorch { enabled: !x.enabled, ..x })),
            GearKind::Photocam(x) => GearKind::Photocam((Photocam { enabled: !x.enabled, ..x })),
            GearKind::Compass(x) => GearKind::Compass((Compass { enabled: !x.enabled, ..x })),
            GearKind::EStaticMeter(x) => GearKind::EStaticMeter((EStaticMeter { enabled: !x.enabled, ..x })),
            GearKind::Videocam(x) => GearKind::Videocam((Videocam { enabled: !x.enabled, ..x })),
            GearKind::MotionSensor(x) => GearKind::MotionSensor((MotionSensor { enabled: !x.enabled, ..x })),
            GearKind::Flashlight(x) => GearKind::Flashlight(
                (Flashlight { status: FlashlightStatus::successor(x.status), ..x }),
            ),
            GearKind::RepellentFlask(x) => if x.liquid_content is Some {
                GearKind::RepellentFlask((RepellentFlask { active: true, ..x }))
            } else {
                self
            },
            GearKind::QuartzStone(_) => self,
            GearKind::Salt(x) => if x.charges > 0 && !x.spawn_salt {
                GearKind::Salt((SaltData { charges: (x.charges - 1) as u8, spawn_salt: true }))
            } else {
                self
            },
            GearKind::SageBundle(x) => if !x.is_active {
                GearKind::SageBundle((SageBundleData { is_active: true, burn_elapsed_ms: 0 }))
            } else {
                self
            },
            GearKind::Empty => self,
        }
    }
}

impl Gear {
    /// Presses the trigger of the gear in the slot. Returns whether a sage
    /// bundle was lit now, which plays its own sound besides the switch sound
    /// that every trigger plays.
    pub fn set_trigger(&mut self) -> (r: bool)
        ensures
            final(self).kind == old(self).kind.triggered(),
            r == (old(self).kind matches GearKind::SageBundle(x) && !x.is_active),
    {
        let mut lit = false;
        match &mut self.kind {
            GearKind::Thermometer(x) => x.set_trigger(),
            GearKind::EMFMeter(x) => x.set_trigger(),
            GearKind::Recorder(x) => x.set_trigger(),
            GearKind::GeigerCounter(x) => x.set_trigger(),
            GearKind::UVTorch(x) => x.set_trigger(),
            GearKind::IonMeter(x) => x.set_trigger(),
            GearKind::SpiritBox(x) => x.set_trigger(),
            GearKind::ThermalImager(x) => x.set_trigger(),
            GearKind::RedTorch(x) => x.set_trigger(),
            GearKind::Photocam(x) => x.set_trigger(),
            GearKind::Compass(x) => x.set_trigger(),
            GearKind::EStaticMeter(x) => x.set_trigger(),
            GearKind::Videocam(x) => x.set_trigger(),
            GearKind::MotionSensor(x) => x.set_trigger(),
            GearKind::Flashlight(x) => x.set_trigger(),
            GearKind::RepellentFlask(x) => x.set_trigger(),
            GearKind::QuartzStone(_) => {},
            GearKind::Salt(x) => x.set_trigger(),
            GearKind::SageBundle(x) => {
                lit = x.set_trigger();
            },
            GearKind::Empty => {},
        }
        lit
    }
}

/// The on/off switch of a piece of gear that has one: `Some` of whether it
/// is switched on; `None` for gear without such a switch.
pub open spec fn switch_of(k: GearKind) -> Option<bool> {
    match k {
        GearKind::Thermometer(x) => Some(x.enabled),
        GearKind::EMFMeter(x) => Some(x.enabled),
        GearKind::Recorder(x) => Some(x.enabled),
        GearKind::GeigerCounter(x) => Some(x.enabled),
        GearKind::UVTorch(x) => Some(x.enabled),
        GearKind::IonMeter(x) => Some(x.enabled),
        GearKind::SpiritBox(x) => Some(x.enabled),
        GearKind::ThermalImager(x) => Some(x.enabled),
        GearKind::RedTorch(x) => Some(x.enabled),
        GearKind::Photocam(x) => Some(x.enabled),
        GearKind::Compass(x) => Some(x.enabled),
        GearKind::EStaticMeter(x) => Some(x.enabled),
        GearKind::Videocam(x) => Some(x.enabled),
        GearKind::MotionSensor(x) => Some(x.enabled),
        _ => None,
    }
}

/// Which kind of gear `k` is, as a number: one per variant of `GearKind`.
pub open spec fn kind_tag(k: GearKind) -> int {
    match k {
        GearKind::Thermometer(_) => 0,
        GearKind::EMFMeter(_) => 1,
        GearKind::Recorder(_) => 2,
        GearKind::Flashlight(_) => 3,
        GearKind::GeigerCounter(_) => 4,
        GearKind::UVTorch(_) => 5,
        GearKind::IonMeter(_) => 6,
        GearKind::SpiritBox(_) => 7,
        GearKind::ThermalImager(_) => 8,
        GearKind::RedTorch(_) => 9,
        GearKind::Photocam(_) => 10,
        GearKind::Compass(_) => 11,
        GearKind::EStaticMeter(_) => 12,
        GearKind::Videocam(_) => 13,
        GearKind::MotionSensor(_) => 14,
        GearKind::RepellentFlask(_) => 15,
        GearKind::QuartzStone(_) => 16,
        GearKind::Salt(_) => 17,
        GearKind::SageBundle(_) => 18,
        GearKind::Empty => 19,
    }
}

/// The trigger of on/off gear switches it: pressing it flips the switch,
/// keeps the kind of gear and what it last measured, and pressing it again
/// gives back the gear as it was.
pub proof fn lemma_trigger_flips_switch(k: GearKind)
    requires
        switch_of(k) is Some,
    ensures
        switch_of(k.triggered()) == Some(!switch_of(k)->0),
        kind_tag(k.triggered()) == kind_tag(k),
        k.triggered().triggered() == k,
        k matches GearKind::Recorder(x) ==> (k.triggered() matches GearKind::Recorder(y)
            && y.loudness_band == x.loudness_band && y.evp_recorded_display
            == x.evp_recorded_display),
        k matches GearKind::GeigerCounter(x) ==> (k.triggered() matches GearKind::GeigerCounter(y)
            && y.ticking == x.ticking),
{
}

/// Two pieces of on/off gear of the same kind and in the same switch
/// position are the same gear, what they last measured aside: the switch is
/// all the state the trigger touches.
pub proof fn lemma_switch_is_whole_state(a: GearKind, b: GearKind)
    requires
        switch_of(a) is Some,
        switch_of(a) == switch_of(b),
        kind_tag(a) == kind_tag(b),
        !(a is Recorder),
        !(a is GeigerCounter),
    ensures
        a == b,
{
}

/// The trigger of the other gear: the flashlight steps to another setting
/// and comes back to where it was after four presses, keeping its frame
/// counter; a filled repellent flask starts emptying and keeps its liquid
/// and quantity, an empty one does not react; salt with charges left and no
/// pile pending drops one charge as a pile; an unlit sage bundle is lit
/// from the start of its burn, a lit one does not react; the quartz stone
/// and an empty hand do not react.
pub proof fn lemma_trigger_other_gear(k: GearKind)
    ensures
        k matches GearKind::Flashlight(x) ==> (k.triggered() matches GearKind::Flashlight(y)
            && y.status != x.status && y.frame_counter == x.frame_counter && y.rand == x.rand
            && k.triggered().triggered().triggered().triggered() == k),
        k matches GearKind::RepellentFlask(x) ==> (k.triggered() matches GearKind::RepellentFlask(y)
            && y.active == (x.active || x.liquid_content is Some) && y.liquid_content
            == x.liquid_content && y.qty == x.qty),
        k matches GearKind::Salt(x) ==> (k.triggered() matches GearKind::Salt(y) && if x.charges
            > 0 && !x.spawn_salt {
            y.charges + 1 == x.charges && y.spawn_salt
        } else {
            y == x
        }),
        k matches GearKind::SageBundle(x) ==> (k.triggered() matches GearKind::SageBundle(y) && if !x.is_active {
            y.is_active && y.burn_elapsed_ms == 0
        } else {
            y == x
        }),
        (k is QuartzStone || k is Empty) ==> k.triggered() == k,
{
    if let GearKind::Flashlight(x) = k {
        flashlight::lemma_flashlight_cycle(x.status);
    }
}

} // verus!
