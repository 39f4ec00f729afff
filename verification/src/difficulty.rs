//! Difficulty presets, from Apprentice (easiest) to Legend (hardest), and
//! the settings that each preset gives to the ghost, the environment, the
//! player, evidence gathering, gameplay and scoring.
//!
//! Settings that are fractional numbers are given in thousandths (a ghost
//! speed of `1100` means a multiplier of 1.1; temperatures are in
//! thousandths of a degree Celsius and sanity in thousandths of a point).

use vstd::prelude::*;

verus! {

/// The difficulty levels, from the easiest to the hardest.
#[derive(Debug, Clone, Copy, PartialEq, Eq, Hash, Structural)]
pub enum Difficulty {
    Apprentice,
    FieldResearcher,
    ParanormalAnalyst,
    SeniorInvestigator,
    LeadResearcher,
    CaseManager,
    RegionalDirector,
    NationalSpecialist,
    GlobalExpert,
    Archivist,
    OccultScholar,
    Exorcist,
    Parapsychologist,
    SpiritualGuardian,
    UnhaunterMaster,
    Legend,
}

/// The tabs of the van's screen that a difficulty can open first.
#[derive(Debug, Clone, Copy, PartialEq, Eq, Structural)]
pub enum TabContents {
    Loadout,
    Journal,
}

/// Number of difficulty levels.
pub const DIFFICULTY_COUNT: u8 = 16;

impl Difficulty {
    /// Position of the level, from 0 (easiest) to 15 (hardest).
    pub open spec fn level(self) -> int {
        match self {
            Difficulty::Apprentice => 0,
            Difficulty::FieldResearcher => 1,
            Difficulty::ParanormalAnalyst => 2,
            Difficulty::SeniorInvestigator => 3,
            Difficulty::LeadResearcher => 4,
            Difficulty::CaseManager => 5,
            Difficulty::RegionalDirector => 6,
            Difficulty::NationalSpecialist => 7,
            Difficulty::GlobalExpert => 8,
            Difficulty::Archivist => 9,
            Difficulty::OccultScholar => 10,
            Difficulty::Exorcist => 11,
            Difficulty::Parapsychologist => 12,
            Difficulty::SpiritualGuardian => 13,
            Difficulty::UnhaunterMaster => 14,
            Difficulty::Legend => 15,
        }
    }

    /// The level at position `i` (the hardest for positions past the end).
    pub open spec fn from_level(i: int) -> Difficulty {
        if i == 0 {
            Difficulty::Apprentice
        } else if i == 1 {
            Difficulty::FieldResearcher
        } else if i == 2 {
            Difficulty::ParanormalAnalyst
        } else if i == 3 {
            Difficulty::SeniorInvestigator
        } else if i == 4 {
            Difficulty::LeadResearcher
        } else if i == 5 {
            Difficulty::CaseManager
        } else if i == 6 {
            Difficulty::RegionalDirector
        } else if i == 7 {
            Difficulty::NationalSpecialist
        } else if i == 8 {
            Difficulty::GlobalExpert
        } else if i == 9 {
            Difficulty::Archivist
        } else if i == 10 {
            Difficulty::OccultScholar
        } else if i == 11 {
            Difficulty::Exorcist
        } else if i == 12 {
            Difficulty::Parapsychologist
        } else if i == 13 {
            Difficulty::SpiritualGuardian
        } else if i == 14 {
            Difficulty::UnhaunterMaster
        } else {
            Difficulty::Legend
        }
    }

    /// All levels from the easiest to the hardest.
    pub open spec fn all_seq() -> Seq<Difficulty> {
        seq![
            Difficulty::Apprentice,
            Difficulty::FieldResearcher,
            Difficulty::ParanormalAnalyst,
            Difficulty::SeniorInvestigator,
            Difficulty::LeadResearcher,
            Difficulty::CaseManager,
            Difficulty::RegionalDirector,
            Difficulty::NationalSpecialist,
            Difficulty::GlobalExpert,
            Difficulty::Archivist,
            Difficulty::OccultScholar,
            Difficulty::Exorcist,
            Difficulty::Parapsychologist,
            Difficulty::SpiritualGuardian,
            Difficulty::UnhaunterMaster,
            Difficulty::Legend,
        ]
    }

    /// Returns all levels from the easiest to the hardest.
    pub fn all() -> (r: Vec<Difficulty>)
        ensures
            r@ == Self::all_seq(),
    {
        let r = vec![
            Difficulty::Apprentice,
            Difficulty::FieldResearcher,
            Difficulty::ParanormalAnalyst,
            Difficulty::SeniorInvestigator,
            Difficulty::LeadResearcher,
            Difficulty::CaseManager,
            Difficulty::RegionalDirector,
            Difficulty::NationalSpecialist,
            Difficulty::GlobalExpert,
            Difficulty::Archivist,
            Difficulty::OccultScholar,
            Difficulty::Exorcist,
            Difficulty::Parapsychologist,
            Difficulty::SpiritualGuardian,
            Difficulty::UnhaunterMaster,
            Difficulty::Legend,
        ];
        assert(r@ =~= Self::all_seq());
        r
    }

    /// Returns the position of the level, from 0 (easiest) to 15 (hardest).
    pub fn level_index(&self) -> (r: u8)
        ensures
            r == self.level(),
            r < DIFFICULTY_COUNT,
    {
        match self {
            Difficulty::Apprentice => 0,
            Difficulty::FieldResearcher => 1,
            Difficulty::ParanormalAnalyst => 2,
            Difficulty::SeniorInvestigator => 3,
            Difficulty::LeadResearcher => 4,
            Difficulty::CaseManager => 5,
            Difficulty::RegionalDirector => 6,
            Difficulty::NationalSpecialist => 7,
            Difficulty::GlobalExpert => 8,
            Difficulty::Archivist => 9,
            Difficulty::OccultScholar => 10,
            Difficulty::Exorcist => 11,
            Difficulty::Parapsychologist => 12,
            Difficulty::SpiritualGuardian => 13,
            Difficulty::UnhaunterMaster => 14,
            Difficulty::Legend => 15,
        }
    }

    /// Returns the level at position `i`.
    pub fn from_level_index(i: u8) -> (r: Difficulty)
        requires
            i < DIFFICULTY_COUNT,
        ensures
            r == Self::from_level(i as int),
            r.level() == i,
    {
        match i {
            0 => Difficulty::Apprentice,
            1 => Difficulty::FieldResearcher,
            2 => Difficulty::ParanormalAnalyst,
            3 => Difficulty::SeniorInvestigator,
            4 => Difficulty::LeadResearcher,
            5 => Difficulty::CaseManager,
            6 => Difficulty::RegionalDirector,
            7 => Difficulty::NationalSpecialist,
            8 => Difficulty::GlobalExpert,
            9 => Difficulty::Archivist,
            10 => Difficulty::OccultScholar,
            11 => Difficulty::Exorcist,
            12 => Difficulty::Parapsychologist,
            13 => Difficulty::SpiritualGuardian,
            14 => Difficulty::UnhaunterMaster,
            _ => Difficulty::Legend,
        }
    }

    /// The level after this one, the easiest after the hardest.
    pub open spec fn next_of(self) -> Difficulty {
        Self::from_level((self.level() + 1) % 16)
    }

    /// The level before this one, the hardest before the easiest.
    pub open spec fn prev_of(self) -> Difficulty {
        Self::from_level((self.level() + 15) % 16)
    }

    /// Returns the next level, wrapping around from the hardest to the easiest.
    pub fn next(&self) -> (r: Difficulty)
        ensures
            r == self.next_of(),
            r.level() == (self.level() + 1) % 16,
    {
        let i = self.level_index();
        if i + 1 < DIFFICULTY_COUNT {
            Self::from_level_index(i + 1)
        } else {
            Self::from_level_index(0)
        }
    }

    /// Returns the previous level, wrapping around from the easiest to the hardest.
    pub fn prev(&self) -> (r: Difficulty)
        ensures
            r == self.prev_of(),
            r.level() == (self.level() + 15) % 16,
    {
        let i = self.level_index();
        if i > 0 {
            Self::from_level_index(i - 1)
        } else {
            Self::from_level_index(DIFFICULTY_COUNT - 1)
        }
    }

    /// The `ghost_speed` setting, in thousandths.
    pub open spec fn ghost_speed_of(self) -> u32 {
        match self {
            Difficulty::Apprentice => 800,
            Difficulty::FieldResearcher => 900,
            Difficulty::ParanormalAnalyst => 1000,
            Difficulty::SeniorInvestigator => 1100,
            Difficulty::LeadResearcher => 1200,
            Difficulty::CaseManager => 1300,
            Difficulty::RegionalDirector => 1400,
            Difficulty::NationalSpecialist => 1500,
            Difficulty::GlobalExpert => 1600,
            Difficulty::Archivist => 1700,
            Difficulty::OccultScholar => 1800,
            Difficulty::Exorcist => 1900,
            Difficulty::Parapsychologist => 2000,
            Difficulty::SpiritualGuardian => 2100,
            Difficulty::UnhaunterMaster => 2200,
            Difficulty::Legend => 2500,
        }
    }

    /// Returns the ghost's movement speed multiplier.
    ///
    /// A higher value indicates a faster ghost.
    /// The value is given in thousandths.
    pub fn ghost_speed(&self) -> (r: u32)
        ensures
            r == self.ghost_speed_of(),
    {
        match self {
            Difficulty::Apprentice => 800,
            Difficulty::FieldResearcher => 900,
            Difficulty::ParanormalAnalyst => 1000,
            Difficulty::SeniorInvestigator => 1100,
            Difficulty::LeadResearcher => 1200,
            Difficulty::CaseManager => 1300,
            Difficulty::RegionalDirector => 1400,
            Difficulty::NationalSpecialist => 1500,
            Difficulty::GlobalExpert => 1600,
            Difficulty::Archivist => 1700,
            Difficulty::OccultScholar => 1800,
            Difficulty::Exorcist => 1900,
            Difficulty::Parapsychologist => 2000,
            Difficulty::SpiritualGuardian => 2100,
            Difficulty::UnhaunterMaster => 2200,
            Difficulty::Legend => 2500,
        }
    }

    /// The `ghost_rage_likelihood` setting, in thousandths.
    pub open spec fn ghost_rage_likelihood_of(self) -> u32 {
        match self {
            Difficulty::Apprentice => 600,
            Difficulty::FieldResearcher => 700,
            Difficulty::ParanormalAnalyst => 800,
            Difficulty::SeniorInvestigator => 900,
            Difficulty::LeadResearcher => 1000,
            Difficulty::CaseManager => 1100,
            Difficulty::RegionalDirector => 1200,
            Difficulty::NationalSpecialist => 1300,
            Difficulty::GlobalExpert => 1400,
            Difficulty::Archivist => 1500,
            Difficulty::OccultScholar => 1600,
            Difficulty::Exorcist => 1700,
            Difficulty::Parapsychologist => 1800,
            Difficulty::SpiritualGuardian => 1900,
            Difficulty::UnhaunterMaster => 2000,
            Difficulty::Legend => 2500,
        }
    }

    /// Returns the ghost's rage buildup multiplier.
    ///
    /// A higher value means the ghost becomes enraged more quickly.
    /// The value is given in thousandths.
    pub fn ghost_rage_likelihood(&self) -> (r: u32)
        ensures
            r == self.ghost_rage_likelihood_of(),
    {
        match self {
            Difficulty::Apprentice => 600,
            Difficulty::FieldResearcher => 700,
            Difficulty::ParanormalAnalyst => 800,
            Difficulty::SeniorInvestigator => 900,
            Difficulty::LeadResearcher => 1000,
            Difficulty::CaseManager => 1100,
            Difficulty::RegionalDirector => 1200,
            Difficulty::NationalSpecialist => 1300,
            Difficulty::GlobalExpert => 1400,
            Difficulty::Archivist => 1500,
            Difficulty::OccultScholar => 1600,
            Difficulty::Exorcist => 1700,
            Difficulty::Parapsychologist => 1800,
            Difficulty::SpiritualGuardian => 1900,
            Difficulty::UnhaunterMaster => 2000,
            Difficulty::Legend => 2500,
        }
    }

    /// The `ghost_hunting_aggression` setting, in thousandths.
    pub open spec fn ghost_hunting_aggression_of(self) -> u32 {
        match self {
            Difficulty::Apprentice => 900,
            Difficulty::FieldResearcher => 1000,
            Difficulty::ParanormalAnalyst => 1100,
            Difficulty::SeniorInvestigator => 1200,
            Difficulty::LeadResearcher => 1300,
            Difficulty::CaseManager => 1400,
            Difficulty::RegionalDirector => 1500,
            Difficulty::NationalSpecialist => 1600,
            Difficulty::GlobalExpert => 1700,
            Difficulty::Archivist => 1800,
            Difficulty::OccultScholar => 1900,
            Difficulty::Exorcist => 2000,
            Difficulty::Parapsychologist => 2100,
            Difficulty::SpiritualGuardian => 2200,
            Difficulty::UnhaunterMaster => 2300,
            Difficulty::Legend => 2700,
        }
    }

    /// Returns the ghost's movement speed multiplier during a hunt.
    ///
    /// A higher value results in more aggressive pursuit of the player.
    /// The value is given in thousandths.
    pub fn ghost_hunting_aggression(&self) -> (r: u32)
        ensures
            r == self.ghost_hunting_aggression_of(),
    {
        match self {
            Difficulty::Apprentice => 900,
            Difficulty::FieldResearcher => 1000,
            Difficulty::ParanormalAnalyst => 1100,
            Difficulty::SeniorInvestigator => 1200,
            Difficulty::LeadResearcher => 1300,
            Difficulty::CaseManager => 1400,
            Difficulty::RegionalDirector => 1500,
            Difficulty::NationalSpecialist => 1600,
            Difficulty::GlobalExpert => 1700,
            Difficulty::Archivist => 1800,
            Difficulty::OccultScholar => 1900,
            Difficulty::Exorcist => 2000,
            Difficulty::Parapsychologist => 2100,
            Difficulty::SpiritualGuardian => 2200,
            Difficulty::UnhaunterMaster => 2300,
            Difficulty::Legend => 2700,
        }
    }

    /// The `ghost_interaction_frequency` setting, in thousandths.
    pub open spec fn ghost_interaction_frequency_of(self) -> u32 {
        match self {
            Difficulty::Apprentice => 500,
            Difficulty::FieldResearcher => 700,
            Difficulty::ParanormalAnalyst => 900,
            Difficulty::SeniorInvestigator => 1100,
            Difficulty::LeadResearcher => 1300,
            Difficulty::CaseManager => 1500,
            Difficulty::RegionalDirector => 1700,
            Difficulty::NationalSpecialist => 1900,
            Difficulty::GlobalExpert => 2100,
            Difficulty::Archivist => 2300,
            Difficulty::OccultScholar => 2500,
            Difficulty::Exorcist => 2700,
            Difficulty::Parapsychologist => 2900,
            Difficulty::SpiritualGuardian => 3100,
            Difficulty::UnhaunterMaster => 3300,
            Difficulty::Legend => 4000,
        }
    }

    /// Returns the multiplier for how often the ghost interacts with objects or triggers events.
    ///
    /// A higher value leads to more frequent paranormal activity.
    /// The value is given in thousandths.
    pub fn ghost_interaction_frequency(&self) -> (r: u32)
        ensures
            r == self.ghost_interaction_frequency_of(),
    {
        match self {
            Difficulty::Apprentice => 500,
            Difficulty::FieldResearcher => 700,
            Difficulty::ParanormalAnalyst => 900,
            Difficulty::SeniorInvestigator => 1100,
            Difficulty::LeadResearcher => 1300,
            Difficulty::CaseManager => 1500,
            Difficulty::RegionalDirector => 1700,
            Difficulty::NationalSpecialist => 1900,
            Difficulty::GlobalExpert => 2100,
            Difficulty::Archivist => 2300,
            Difficulty::OccultScholar => 2500,
            Difficulty::Exorcist => 2700,
            Difficulty::Parapsychologist => 2900,
            Difficulty::SpiritualGuardian => 3100,
            Difficulty::UnhaunterMaster => 3300,
            Difficulty::Legend => 4000,
        }
    }

    /// The `ghost_hunt_duration` setting, in thousandths.
    pub open spec fn ghost_hunt_duration_of(self) -> u32 {
        match self {
            Difficulty::Apprentice => 700,
            Difficulty::FieldResearcher => 800,
            Difficulty::ParanormalAnalyst => 900,
            Difficulty::SeniorInvestigator => 1000,
            Difficulty::LeadResearcher => 1100,
            Difficulty::CaseManager => 1200,
            Difficulty::RegionalDirector => 1300,
            Difficulty::NationalSpecialist => 1400,
            Difficulty::GlobalExpert => 1500,
            Difficulty::Archivist => 1600,
            Difficulty::OccultScholar => 1700,
            Difficulty::Exorcist => 1800,
            Difficulty::Parapsychologist => 1900,
            Difficulty::SpiritualGuardian => 2000,
            Difficulty::UnhaunterMaster => 2100,
            Difficulty::Legend => 2500,
        }
    }

    /// Returns the multiplier for the duration of a ghost's hunting phase.
    ///
    /// A higher value results in longer hunts.
    /// The value is given in thousandths.
    pub fn ghost_hunt_duration(&self) -> (r: u32)
        ensures
            r == self.ghost_hunt_duration_of(),
    {
        match self {
            Difficulty::Apprentice => 700,
            Difficulty::FieldResearcher => 800,
            Difficulty::ParanormalAnalyst => 900,
            Difficulty::SeniorInvestigator => 1000,
            Difficulty::LeadResearcher => 1100,
            Difficulty::CaseManager => 1200,
            Difficulty::RegionalDirector => 1300,
            Difficulty::NationalSpecialist => 1400,
            Difficulty::GlobalExpert => 1500,
            Difficulty::Archivist => 1600,
            Difficulty::OccultScholar => 1700,
            Difficulty::Exorcist => 1800,
            Difficulty::Parapsychologist => 1900,
            Difficulty::SpiritualGuardian => 2000,
            Difficulty::UnhaunterMaster => 2100,
            Difficulty::Legend => 2500,
        }
    }

    /// The `ghost_hunt_cooldown` setting, in thousandths.
    pub open spec fn ghost_hunt_cooldown_of(self) -> u32 {
        match self {
            Difficulty::Apprentice => 1500,
            Difficulty::FieldResearcher => 1300,
            Difficulty::ParanormalAnalyst => 1100,
            Difficulty::SeniorInvestigator => 1000,
            Difficulty::LeadResearcher => 900,
            Difficulty::CaseManager => 800,
            Difficulty::RegionalDirector => 700,
            Difficulty::NationalSpecialist => 650,
            Difficulty::GlobalExpert => 600,
            Difficulty::Archivist => 550,
            Difficulty::OccultScholar => 500,
            Difficulty::Exorcist => 450,
            Difficulty::Parapsychologist => 400,
            Difficulty::SpiritualGuardian => 350,
            Difficulty::UnhaunterMaster => 300,
            Difficulty::Legend => 200,
        }
    }

    /// Returns the multiplier for the time between ghost hunts.
    ///
    /// A higher value means longer periods of calm between hunts.
    /// The value is given in thousandths.
    pub fn ghost_hunt_cooldown(&self) -> (r: u32)
        ensures
            r == self.ghost_hunt_cooldown_of(),
    {
        match self {
            Difficulty::Apprentice => 1500,
            Difficulty::FieldResearcher => 1300,
            Difficulty::ParanormalAnalyst => 1100,
            Difficulty::SeniorInvestigator => 1000,
            Difficulty::LeadResearcher => 900,
            Difficulty::CaseManager => 800,
            Difficulty::RegionalDirector => 700,
            Difficulty::NationalSpecialist => 650,
            Difficulty::GlobalExpert => 600,
            Difficulty::Archivist => 550,
            Difficulty::OccultScholar => 500,
            Difficulty::Exorcist => 450,
            Difficulty::Parapsychologist => 400,
            Difficulty::SpiritualGuardian => 350,
            Difficulty::UnhaunterMaster => 300,
            Difficulty::Legend => 200,
        }
    }

    /// The `ghost_attraction_to_breach` setting, in thousandths.
    pub open spec fn ghost_attraction_to_breach_of(self) -> u32 {
        match self {
            Difficulty::Apprentice => 1800,
            Difficulty::FieldResearcher => 1600,
            Difficulty::ParanormalAnalyst => 1400,
            Difficulty::SeniorInvestigator => 1200,
            Difficulty::LeadResearcher => 1000,
            Difficulty::CaseManager => 900,
            Difficulty::RegionalDirector => 800,
            Difficulty::NationalSpecialist => 700,
            Difficulty::GlobalExpert => 600,
            Difficulty::Archivist => 550,
            Difficulty::OccultScholar => 500,
            Difficulty::Exorcist => 450,
            Difficulty::Parapsychologist => 400,
            Difficulty::SpiritualGuardian => 350,
            Difficulty::UnhaunterMaster => 300,
            Difficulty::Legend => 200,
        }
    }

    /// Returns the ghost's attraction factor to its breach (spawn point).
    ///
    /// A higher value means the ghost tends to stay closer to its breach,
    /// while a lower value allows the ghost to roam more freely.
    /// The value is given in thousandths.
    pub fn ghost_attraction_to_breach(&self) -> (r: u32)
        ensures
            r == self.ghost_attraction_to_breach_of(),
    {
        match self {
            Difficulty::Apprentice => 1800,
            Difficulty::FieldResearcher => 1600,
            Difficulty::ParanormalAnalyst => 1400,
            Difficulty::SeniorInvestigator => 1200,
            Difficulty::LeadResearcher => 1000,
            Difficulty::CaseManager => 900,
            Difficulty::RegionalDirector => 800,
            Difficulty::NationalSpecialist => 700,
            Difficulty::GlobalExpert => 600,
            Difficulty::Archivist => 550,
            Difficulty::OccultScholar => 500,
            Difficulty::Exorcist => 450,
            Difficulty::Parapsychologist => 400,
            Difficulty::SpiritualGuardian => 350,
            Difficulty::UnhaunterMaster => 300,
            Difficulty::Legend => 200,
        }
    }

    /// The `hunt_provocation_radius` setting, in thousandths.
    pub open spec fn hunt_provocation_radius_of(self) -> u32 {
        match self {
            Difficulty::Apprentice => 1000,
            Difficulty::FieldResearcher => 1500,
            Difficulty::ParanormalAnalyst => 2000,
            Difficulty::SeniorInvestigator => 2500,
            Difficulty::LeadResearcher => 3000,
            Difficulty::CaseManager => 3200,
            Difficulty::RegionalDirector => 3400,
            Difficulty::NationalSpecialist => 3600,
            Difficulty::GlobalExpert => 3800,
            Difficulty::Archivist => 4000,
            Difficulty::OccultScholar => 4200,
            Difficulty::Exorcist => 4400,
            Difficulty::Parapsychologist => 4600,
            Difficulty::SpiritualGuardian => 4800,
            Difficulty::UnhaunterMaster => 5000,
            Difficulty::Legend => 5500,
        }
    }

    /// Returns the radius around the ghost's breach within which a Repulsive object
    /// can provoke a hunt.
    /// The value is given in thousandths.
    pub fn hunt_provocation_radius(&self) -> (r: u32)
        ensures
            r == self.hunt_provocation_radius_of(),
    {
        match self {
            Difficulty::Apprentice => 1000,
            Difficulty::FieldResearcher => 1500,
            Difficulty::ParanormalAnalyst => 2000,
            Difficulty::SeniorInvestigator => 2500,
            Difficulty::LeadResearcher => 3000,
            Difficulty::CaseManager => 3200,
            Difficulty::RegionalDirector => 3400,
            Difficulty::NationalSpecialist => 3600,
            Difficulty::GlobalExpert => 3800,
            Difficulty::Archivist => 4000,
            Difficulty::OccultScholar => 4200,
            Difficulty::Exorcist => 4400,
            Difficulty::Parapsychologist => 4600,
            Difficulty::SpiritualGuardian => 4800,
            Difficulty::UnhaunterMaster => 5000,
            Difficulty::Legend => 5500,
        }
    }

    /// The `attractive_removal_anger_rate` setting, in thousandths.
    pub open spec fn attractive_removal_anger_rate_of(self) -> u32 {
        match self {
            Difficulty::Apprentice => 20,
            Difficulty::FieldResearcher => 30,
            Difficulty::ParanormalAnalyst => 40,
            Difficulty::SeniorInvestigator => 50,
            Difficulty::LeadResearcher => 60,
            Difficulty::CaseManager => 70,
            Difficulty::RegionalDirector => 80,
            Difficulty::NationalSpecialist => 90,
            Difficulty::GlobalExpert => 100,
            Difficulty::Archivist => 110,
            Difficulty::OccultScholar => 120,
            Difficulty::Exorcist => 130,
            Difficulty::Parapsychologist => 140,
            Difficulty::SpiritualGuardian => 150,
            Difficulty::UnhaunterMaster => 160,
            Difficulty::Legend => 200,
        }
    }

    /// Returns the rate at which the ghost's anger increases when an attractive
    /// object is removed from the location.
    /// The value is given in thousandths.
    pub fn attractive_removal_anger_rate(&self) -> (r: u32)
        ensures
            r == self.attractive_removal_anger_rate_of(),
    {
        match self {
            Difficulty::Apprentice => 20,
            Difficulty::FieldResearcher => 30,
            Difficulty::ParanormalAnalyst => 40,
            Difficulty::SeniorInvestigator => 50,
            Difficulty::LeadResearcher => 60,
            Difficulty::CaseManager => 70,
            Difficulty::RegionalDirector => 80,
            Difficulty::NationalSpecialist => 90,
            Difficulty::GlobalExpert => 100,
            Difficulty::Archivist => 110,
            Difficulty::OccultScholar => 120,
            Difficulty::Exorcist => 130,
            Difficulty::Parapsychologist => 140,
            Difficulty::SpiritualGuardian => 150,
            Difficulty::UnhaunterMaster => 160,
            Difficulty::Legend => 200,
        }
    }

    /// The `ambient_temperature` setting, in thousandths.
    pub open spec fn ambient_temperature_of(self) -> u32 {
        match self {
            Difficulty::Apprentice => 20000,
            Difficulty::FieldResearcher => 18000,
            Difficulty::ParanormalAnalyst => 16000,
            Difficulty::SeniorInvestigator => 14000,
            Difficulty::LeadResearcher => 12000,
            Difficulty::CaseManager => 10000,
            Difficulty::RegionalDirector => 8000,
            Difficulty::NationalSpecialist => 7000,
            Difficulty::GlobalExpert => 6000,
            Difficulty::Archivist => 5500,
            Difficulty::OccultScholar => 5000,
            Difficulty::Exorcist => 4500,
            Difficulty::Parapsychologist => 4000,
            Difficulty::SpiritualGuardian => 3500,
            Difficulty::UnhaunterMaster => 3000,
            Difficulty::Legend => 2000,
        }
    }

    /// Returns the base ambient temperature of the location.
    /// The value is given in thousandths.
    pub fn ambient_temperature(&self) -> (r: u32)
        ensures
            r == self.ambient_temperature_of(),
    {
        match self {
            Difficulty::Apprentice => 20000,
            Difficulty::FieldResearcher => 18000,
            Difficulty::ParanormalAnalyst => 16000,
            Difficulty::SeniorInvestigator => 14000,
            Difficulty::LeadResearcher => 12000,
            Difficulty::CaseManager => 10000,
            Difficulty::RegionalDirector => 8000,
            Difficulty::NationalSpecialist => 7000,
            Difficulty::GlobalExpert => 6000,
            Difficulty::Archivist => 5500,
            Difficulty::OccultScholar => 5000,
            Difficulty::Exorcist => 4500,
            Difficulty::Parapsychologist => 4000,
            Difficulty::SpiritualGuardian => 3500,
            Difficulty::UnhaunterMaster => 3000,
            Difficulty::Legend => 2000,
        }
    }

    /// The `temperature_spread_speed` setting, in thousandths.
    pub open spec fn temperature_spread_speed_of(self) -> u32 {
        match self {
            Difficulty::Apprentice => 700,
            Difficulty::FieldResearcher => 800,
            Difficulty::ParanormalAnalyst => 900,
            Difficulty::SeniorInvestigator => 1000,
            Difficulty::LeadResearcher => 1100,
            Difficulty::CaseManager => 1200,
            Difficulty::RegionalDirector => 1250,
            Difficulty::NationalSpecialist => 1300,
            Difficulty::GlobalExpert => 1350,
            Difficulty::Archivist => 1400,
            Difficulty::OccultScholar => 1450,
            Difficulty::Exorcist => 1500,
            Difficulty::Parapsychologist => 1550,
            Difficulty::SpiritualGuardian => 1600,
            Difficulty::UnhaunterMaster => 1650,
            Difficulty::Legend => 1700,
        }
    }

    /// Returns the multiplier for how quickly temperature changes
    /// propagate through the environment.
    /// The value is given in thousandths.
    pub fn temperature_spread_speed(&self) -> (r: u32)
        ensures
            r == self.temperature_spread_speed_of(),
    {
        match self {
            Difficulty::Apprentice => 700,
            Difficulty::FieldResearcher => 800,
            Difficulty::ParanormalAnalyst => 900,
            Difficulty::SeniorInvestigator => 1000,
            Difficulty::LeadResearcher => 1100,
            Difficulty::CaseManager => 1200,
            Difficulty::RegionalDirector => 1250,
            Difficulty::NationalSpecialist => 1300,
            Difficulty::GlobalExpert => 1350,
            Difficulty::Archivist => 1400,
            Difficulty::OccultScholar => 1450,
            Difficulty::Exorcist => 1500,
            Difficulty::Parapsychologist => 1550,
            Difficulty::SpiritualGuardian => 1600,
            Difficulty::UnhaunterMaster => 1650,
            Difficulty::Legend => 1700,
        }
    }

    /// The `light_heat` setting, in thousandths.
    pub open spec fn light_heat_of(self) -> u32 {
        match self {
            Difficulty::Apprentice => 800,
            Difficulty::FieldResearcher => 900,
            Difficulty::ParanormalAnalyst => 1000,
            Difficulty::SeniorInvestigator => 1050,
            Difficulty::LeadResearcher => 1100,
            Difficulty::CaseManager => 1150,
            Difficulty::RegionalDirector => 1200,
            Difficulty::NationalSpecialist => 1250,
            Difficulty::GlobalExpert => 1300,
            Difficulty::Archivist => 1350,
            Difficulty::OccultScholar => 1400,
            Difficulty::Exorcist => 1450,
            Difficulty::Parapsychologist => 1500,
            Difficulty::SpiritualGuardian => 1550,
            Difficulty::UnhaunterMaster => 1600,
            Difficulty::Legend => 1700,
        }
    }

    /// Returns the heat generation multiplier for light sources.
    ///
    /// A higher value means lights emit more heat.
    /// The value is given in thousandths.
    pub fn light_heat(&self) -> (r: u32)
        ensures
            r == self.light_heat_of(),
    {
        match self {
            Difficulty::Apprentice => 800,
            Difficulty::FieldResearcher => 900,
            Difficulty::ParanormalAnalyst => 1000,
            Difficulty::SeniorInvestigator => 1050,
            Difficulty::LeadResearcher => 1100,
            Difficulty::CaseManager => 1150,
            Difficulty::RegionalDirector => 1200,
            Difficulty::NationalSpecialist => 1250,
            Difficulty::GlobalExpert => 1300,
            Difficulty::Archivist => 1350,
            Difficulty::OccultScholar => 1400,
            Difficulty::Exorcist => 1450,
            Difficulty::Parapsychologist => 1500,
            Difficulty::SpiritualGuardian => 1550,
            Difficulty::UnhaunterMaster => 1600,
            Difficulty::Legend => 1700,
        }
    }

    /// The `darkness_intensity` setting, in thousandths.
    pub open spec fn darkness_intensity_of(self) -> u32 {
        match self {
            Difficulty::Apprentice => 600,
            Difficulty::FieldResearcher => 700,
            Difficulty::ParanormalAnalyst => 800,
            Difficulty::SeniorInvestigator => 900,
            Difficulty::LeadResearcher => 1000,
            Difficulty::CaseManager => 1050,
            Difficulty::RegionalDirector => 1100,
            Difficulty::NationalSpecialist => 1150,
            Difficulty::GlobalExpert => 1200,
            Difficulty::Archivist => 1250,
            Difficulty::OccultScholar => 1300,
            Difficulty::Exorcist => 1350,
            Difficulty::Parapsychologist => 1400,
            Difficulty::SpiritualGuardian => 1450,
            Difficulty::UnhaunterMaster => 1500,
            Difficulty::Legend => 1600,
        }
    }

    /// Returns the multiplier for the intensity of darkness at low light levels.
    ///
    /// This simulates the eye's adaptation to darkness, with higher values resulting
    /// in a darker environment overall.
    /// The value is given in thousandths.
    pub fn darkness_intensity(&self) -> (r: u32)
        ensures
            r == self.darkness_intensity_of(),
    {
        match self {
            Difficulty::Apprentice => 600,
            Difficulty::FieldResearcher => 700,
            Difficulty::ParanormalAnalyst => 800,
            Difficulty::SeniorInvestigator => 900,
            Difficulty::LeadResearcher => 1000,
            Difficulty::CaseManager => 1050,
            Difficulty::RegionalDirector => 1100,
            Difficulty::NationalSpecialist => 1150,
            Difficulty::GlobalExpert => 1200,
            Difficulty::Archivist => 1250,
            Difficulty::OccultScholar => 1300,
            Difficulty::Exorcist => 1350,
            Difficulty::Parapsychologist => 1400,
            Difficulty::SpiritualGuardian => 1450,
            Difficulty::UnhaunterMaster => 1500,
            Difficulty::Legend => 1600,
        }
    }

    /// The `environment_gamma` setting, in thousandths.
    pub open spec fn environment_gamma_of(self) -> u32 {
        match self {
            Difficulty::Apprentice => 1800,
            Difficulty::FieldResearcher => 1600,
            Difficulty::ParanormalAnalyst => 1400,
            Difficulty::SeniorInvestigator => 1300,
            Difficulty::LeadResearcher => 1200,
            Difficulty::CaseManager => 1150,
            Difficulty::RegionalDirector => 1100,
            Difficulty::NationalSpecialist => 1050,
            Difficulty::GlobalExpert => 1000,
            Difficulty::Archivist => 950,
            Difficulty::OccultScholar => 900,
            Difficulty::Exorcist => 850,
            Difficulty::Parapsychologist => 800,
            Difficulty::SpiritualGuardian => 750,
            Difficulty::UnhaunterMaster => 700,
            Difficulty::Legend => 600,
        }
    }

    /// Returns the gamma correction value for the game environment.
    ///
    /// Higher values make the lighting appear harsher and less realistic,
    /// potentially highlighting details but creating a less atmospheric look.
    /// The value is given in thousandths.
    pub fn environment_gamma(&self) -> (r: u32)
        ensures
            r == self.environment_gamma_of(),
    {
        match self {
            Difficulty::Apprentice => 1800,
            Difficulty::FieldResearcher => 1600,
            Difficulty::ParanormalAnalyst => 1400,
            Difficulty::SeniorInvestigator => 1300,
            Difficulty::LeadResearcher => 1200,
            Difficulty::CaseManager => 1150,
            Difficulty::RegionalDirector => 1100,
            Difficulty::NationalSpecialist => 1050,
            Difficulty::GlobalExpert => 1000,
            Difficulty::Archivist => 950,
            Difficulty::OccultScholar => 900,
            Difficulty::Exorcist => 850,
            Difficulty::Parapsychologist => 800,
            Difficulty::SpiritualGuardian => 750,
            Difficulty::UnhaunterMaster => 700,
            Difficulty::Legend => 600,
        }
    }

    /// The `starting_sanity` setting, in thousandths.
    pub open spec fn starting_sanity_of(self) -> u32 {
        match self {
            Difficulty::Apprentice => 100000,
            Difficulty::FieldResearcher => 90000,
            Difficulty::ParanormalAnalyst => 80000,
            Difficulty::SeniorInvestigator => 75000,
            Difficulty::LeadResearcher => 70000,
            Difficulty::CaseManager => 65000,
            Difficulty::RegionalDirector => 60000,
            Difficulty::NationalSpecialist => 55000,
            Difficulty::GlobalExpert => 50000,
            Difficulty::Archivist => 45000,
            Difficulty::OccultScholar => 40000,
            Difficulty::Exorcist => 35000,
            Difficulty::Parapsychologist => 30000,
            Difficulty::SpiritualGuardian => 25000,
            Difficulty::UnhaunterMaster => 20000,
            Difficulty::Legend => 10000,
        }
    }

    /// Returns the player's starting sanity level.
    /// The value is given in thousandths.
    pub fn starting_sanity(&self) -> (r: u32)
        ensures
            r == self.starting_sanity_of(),
    {
        match self {
            Difficulty::Apprentice => 100000,
            Difficulty::FieldResearcher => 90000,
            Difficulty::ParanormalAnalyst => 80000,
            Difficulty::SeniorInvestigator => 75000,
            Difficulty::LeadResearcher => 70000,
            Difficulty::CaseManager => 65000,
            Difficulty::RegionalDirector => 60000,
            Difficulty::NationalSpecialist => 55000,
            Difficulty::GlobalExpert => 50000,
            Difficulty::Archivist => 45000,
            Difficulty::OccultScholar => 40000,
            Difficulty::Exorcist => 35000,
            Difficulty::Parapsychologist => 30000,
            Difficulty::SpiritualGuardian => 25000,
            Difficulty::UnhaunterMaster => 20000,
            Difficulty::Legend => 10000,
        }
    }

    /// The `sanity_drain_rate` setting, in thousandths.
    pub open spec fn sanity_drain_rate_of(self) -> u32 {
        match self {
            Difficulty::Apprentice => 500,
            Difficulty::FieldResearcher => 700,
            Difficulty::ParanormalAnalyst => 900,
            Difficulty::SeniorInvestigator => 1100,
            Difficulty::LeadResearcher => 1300,
            Difficulty::CaseManager => 1500,
            Difficulty::RegionalDirector => 1700,
            Difficulty::NationalSpecialist => 1900,
            Difficulty::GlobalExpert => 2100,
            Difficulty::Archivist => 2300,
            Difficulty::OccultScholar => 2500,
            Difficulty::Exorcist => 2700,
            Difficulty::Parapsychologist => 2900,
            Difficulty::SpiritualGuardian => 3100,
            Difficulty::UnhaunterMaster => 3300,
            Difficulty::Legend => 4000,
        }
    }

    /// Returns the sanity drain rate multiplier.
    ///
    /// A higher value results in faster sanity loss for the player.
    /// The value is given in thousandths.
    pub fn sanity_drain_rate(&self) -> (r: u32)
        ensures
            r == self.sanity_drain_rate_of(),
    {
        match self {
            Difficulty::Apprentice => 500,
            Difficulty::FieldResearcher => 700,
            Difficulty::ParanormalAnalyst => 900,
            Difficulty::SeniorInvestigator => 1100,
            Difficulty::LeadResearcher => 1300,
            Difficulty::CaseManager => 1500,
            Difficulty::RegionalDirector => 1700,
            Difficulty::NationalSpecialist => 1900,
            Difficulty::GlobalExpert => 2100,
            Difficulty::Archivist => 2300,
            Difficulty::OccultScholar => 2500,
            Difficulty::Exorcist => 2700,
            Difficulty::Parapsychologist => 2900,
            Difficulty::SpiritualGuardian => 3100,
            Difficulty::UnhaunterMaster => 3300,
            Difficulty::Legend => 4000,
        }
    }

    /// The `health_drain_rate` setting, in thousandths.
    pub open spec fn health_drain_rate_of(self) -> u32 {
        match self {
            Difficulty::Apprentice => 800,
            Difficulty::FieldResearcher => 900,
            Difficulty::ParanormalAnalyst => 1000,
            Difficulty::SeniorInvestigator => 1100,
            Difficulty::LeadResearcher => 1200,
            Difficulty::CaseManager => 1300,
            Difficulty::RegionalDirector => 1400,
            Difficulty::NationalSpecialist => 1500,
            Difficulty::GlobalExpert => 1600,
            Difficulty::Archivist => 1700,
            Difficulty::OccultScholar => 1800,
            Difficulty::Exorcist => 1900,
            Difficulty::Parapsychologist => 2000,
            Difficulty::SpiritualGuardian => 2100,
            Difficulty::UnhaunterMaster => 2200,
            Difficulty::Legend => 2500,
        }
    }

    /// Returns the health drain rate multiplier during a ghost hunt.
    ///
    /// A higher value means the player loses health more quickly during hunts.
    /// The value is given in thousandths.
    pub fn health_drain_rate(&self) -> (r: u32)
        ensures
            r == self.health_drain_rate_of(),
    {
        match self {
            Difficulty::Apprentice => 800,
            Difficulty::FieldResearcher => 900,
            Difficulty::ParanormalAnalyst => 1000,
            Difficulty::SeniorInvestigator => 1100,
            Difficulty::LeadResearcher => 1200,
            Difficulty::CaseManager => 1300,
            Difficulty::RegionalDirector => 1400,
            Difficulty::NationalSpecialist => 1500,
            Difficulty::GlobalExpert => 1600,
            Difficulty::Archivist => 1700,
            Difficulty::OccultScholar => 1800,
            Difficulty::Exorcist => 1900,
            Difficulty::Parapsychologist => 2000,
            Difficulty::SpiritualGuardian => 2100,
            Difficulty::UnhaunterMaster => 2200,
            Difficulty::Legend => 2500,
        }
    }

    /// The `health_recovery_rate` setting, in thousandths.
    pub open spec fn health_recovery_rate_of(self) -> u32 {
        match self {
            Difficulty::Apprentice => 1200,
            Difficulty::FieldResearcher => 1100,
            Difficulty::ParanormalAnalyst => 1000,
            Difficulty::SeniorInvestigator => 950,
            Difficulty::LeadResearcher => 900,
            Difficulty::CaseManager => 850,
            Difficulty::RegionalDirector => 800,
            Difficulty::NationalSpecialist => 750,
            Difficulty::GlobalExpert => 700,
            Difficulty::Archivist => 650,
            Difficulty::OccultScholar => 600,
            Difficulty::Exorcist => 550,
            Difficulty::Parapsychologist => 500,
            Difficulty::SpiritualGuardian => 450,
            Difficulty::UnhaunterMaster => 400,
            Difficulty::Legend => 300,
        }
    }

    /// Returns the health recovery rate multiplier.
    ///
    /// A higher value means the player regains health more quickly.
    /// The value is given in thousandths.
    pub fn health_recovery_rate(&self) -> (r: u32)
        ensures
            r == self.health_recovery_rate_of(),
    {
        match self {
            Difficulty::Apprentice => 1200,
            Difficulty::FieldResearcher => 1100,
            Difficulty::ParanormalAnalyst => 1000,
            Difficulty::SeniorInvestigator => 950,
            Difficulty::LeadResearcher => 900,
            Difficulty::CaseManager => 850,
            Difficulty::RegionalDirector => 800,
            Difficulty::NationalSpecialist => 750,
            Difficulty::GlobalExpert => 700,
            Difficulty::Archivist => 650,
            Difficulty::OccultScholar => 600,
            Difficulty::Exorcist => 550,
            Difficulty::Parapsychologist => 500,
            Difficulty::SpiritualGuardian => 450,
            Difficulty::UnhaunterMaster => 400,
            Difficulty::Legend => 300,
        }
    }

    /// The `player_speed` setting, in thousandths.
    pub open spec fn player_speed_of(self) -> u32 {
        match self {
            Difficulty::Apprentice => 1100,
            Difficulty::FieldResearcher => 1000,
            Difficulty::ParanormalAnalyst => 950,
            Difficulty::SeniorInvestigator => 900,
            Difficulty::LeadResearcher => 850,
            Difficulty::CaseManager => 800,
            Difficulty::RegionalDirector => 750,
            Difficulty::NationalSpecialist => 700,
            Difficulty::GlobalExpert => 650,
            Difficulty::Archivist => 600,
            Difficulty::OccultScholar => 550,
            Difficulty::Exorcist => 500,
            Difficulty::Parapsychologist => 450,
            Difficulty::SpiritualGuardian => 400,
            Difficulty::UnhaunterMaster => 350,
            Difficulty::Legend => 300,
        }
    }

    /// Returns the player's movement speed multiplier.
    /// The value is given in thousandths.
    pub fn player_speed(&self) -> (r: u32)
        ensures
            r == self.player_speed_of(),
    {
        match self {
            Difficulty::Apprentice => 1100,
            Difficulty::FieldResearcher => 1000,
            Difficulty::ParanormalAnalyst => 950,
            Difficulty::SeniorInvestigator => 900,
            Difficulty::LeadResearcher => 850,
            Difficulty::CaseManager => 800,
            Difficulty::RegionalDirector => 750,
            Difficulty::NationalSpecialist => 700,
            Difficulty::GlobalExpert => 650,
            Difficulty::Archivist => 600,
            Difficulty::OccultScholar => 550,
            Difficulty::Exorcist => 500,
            Difficulty::Parapsychologist => 450,
            Difficulty::SpiritualGuardian => 400,
            Difficulty::UnhaunterMaster => 350,
            Difficulty::Legend => 300,
        }
    }

    /// The `evidence_visibility` setting, in thousandths.
    pub open spec fn evidence_visibility_of(self) -> u32 {
        match self {
            Difficulty::Apprentice => 1500,
            Difficulty::FieldResearcher => 1300,
            Difficulty::ParanormalAnalyst => 1100,
            Difficulty::SeniorInvestigator => 1000,
            Difficulty::LeadResearcher => 900,
            Difficulty::CaseManager => 800,
            Difficulty::RegionalDirector => 700,
            Difficulty::NationalSpecialist => 650,
            Difficulty::GlobalExpert => 600,
            Difficulty::Archivist => 550,
            Difficulty::OccultScholar => 500,
            Difficulty::Exorcist => 450,
            Difficulty::Parapsychologist => 400,
            Difficulty::SpiritualGuardian => 350,
            Difficulty::UnhaunterMaster => 300,
            Difficulty::Legend => 200,
        }
    }

    /// Returns the multiplier for the clarity or intensity of evidence manifestations.
    ///
    /// A higher value makes evidence more visible or noticeable.
    /// The value is given in thousandths.
    pub fn evidence_visibility(&self) -> (r: u32)
        ensures
            r == self.evidence_visibility_of(),
    {
        match self {
            Difficulty::Apprentice => 1500,
            Difficulty::FieldResearcher => 1300,
            Difficulty::ParanormalAnalyst => 1100,
            Difficulty::SeniorInvestigator => 1000,
            Difficulty::LeadResearcher => 900,
            Difficulty::CaseManager => 800,
            Difficulty::RegionalDirector => 700,
            Difficulty::NationalSpecialist => 650,
            Difficulty::GlobalExpert => 600,
            Difficulty::Archivist => 550,
            Difficulty::OccultScholar => 500,
            Difficulty::Exorcist => 450,
            Difficulty::Parapsychologist => 400,
            Difficulty::SpiritualGuardian => 350,
            Difficulty::UnhaunterMaster => 300,
            Difficulty::Legend => 200,
        }
    }

    /// The `equipment_sensitivity` setting, in thousandths.
    pub open spec fn equipment_sensitivity_of(self) -> u32 {
        match self {
            Difficulty::Apprentice => 1300,
            Difficulty::FieldResearcher => 1200,
            Difficulty::ParanormalAnalyst => 1100,
            Difficulty::SeniorInvestigator => 1050,
            Difficulty::LeadResearcher => 1000,
            Difficulty::CaseManager => 950,
            Difficulty::RegionalDirector => 900,
            Difficulty::NationalSpecialist => 850,
            Difficulty::GlobalExpert => 800,
            Difficulty::Archivist => 750,
            Difficulty::OccultScholar => 700,
            Difficulty::Exorcist => 650,
            Difficulty::Parapsychologist => 600,
            Difficulty::SpiritualGuardian => 550,
            Difficulty::UnhaunterMaster => 500,
            Difficulty::Legend => 400,
        }
    }

    /// Returns the sensitivity multiplier for the player's equipment.
    ///
    /// A higher value makes the equipment more responsive to paranormal activity.
    /// The value is given in thousandths.
    pub fn equipment_sensitivity(&self) -> (r: u32)
        ensures
            r == self.equipment_sensitivity_of(),
    {
        match self {
            Difficulty::Apprentice => 1300,
            Difficulty::FieldResearcher => 1200,
            Difficulty::ParanormalAnalyst => 1100,
            Difficulty::SeniorInvestigator => 1050,
            Difficulty::LeadResearcher => 1000,
            Difficulty::CaseManager => 950,
            Difficulty::RegionalDirector => 900,
            Difficulty::NationalSpecialist => 850,
            Difficulty::GlobalExpert => 800,
            Difficulty::Archivist => 750,
            Difficulty::OccultScholar => 700,
            Difficulty::Exorcist => 650,
            Difficulty::Parapsychologist => 600,
            Difficulty::SpiritualGuardian => 550,
            Difficulty::UnhaunterMaster => 500,
            Difficulty::Legend => 400,
        }
    }

    /// The `difficulty_score_multiplier` setting, in thousandths.
    pub open spec fn difficulty_score_multiplier_of(self) -> u32 {
        match self {
            Difficulty::Apprentice => 1000,
            Difficulty::FieldResearcher => 1200,
            Difficulty::ParanormalAnalyst => 1500,
            Difficulty::SeniorInvestigator => 1800,
            Difficulty::LeadResearcher => 2100,
            Difficulty::CaseManager => 2400,
            Difficulty::RegionalDirector => 2700,
            Difficulty::NationalSpecialist => 3000,
            Difficulty::GlobalExpert => 3300,
            Difficulty::Archivist => 3600,
            Difficulty::OccultScholar => 3900,
            Difficulty::Exorcist => 4200,
            Difficulty::Parapsychologist => 4500,
            Difficulty::SpiritualGuardian => 4800,
            Difficulty::UnhaunterMaster => 5100,
            Difficulty::Legend => 6000,
        }
    }

    /// Returns the score multiplier for the end-of-mission summary,
    /// based on the chosen difficulty level.
    ///
    /// Higher values reward players more for completing missions on harder difficulties.
    /// The value is given in thousandths.
    pub fn difficulty_score_multiplier(&self) -> (r: u32)
        ensures
            r == self.difficulty_score_multiplier_of(),
    {
        match self {
            Difficulty::Apprentice => 1000,
            Difficulty::FieldResearcher => 1200,
            Difficulty::ParanormalAnalyst => 1500,
            Difficulty::SeniorInvestigator => 1800,
            Difficulty::LeadResearcher => 2100,
            Difficulty::CaseManager => 2400,
            Difficulty::RegionalDirector => 2700,
            Difficulty::NationalSpecialist => 3000,
            Difficulty::GlobalExpert => 3300,
            Difficulty::Archivist => 3600,
            Difficulty::OccultScholar => 3900,
            Difficulty::Exorcist => 4200,
            Difficulty::Parapsychologist => 4500,
            Difficulty::SpiritualGuardian => 4800,
            Difficulty::UnhaunterMaster => 5100,
            Difficulty::Legend => 6000,
        }
    }

    /// Whether the van's screen opens by itself when a mission starts: on
    /// the six easiest levels.
    pub fn van_auto_open(&self) -> (r: bool)
        ensures
            r == (self.level() < 6),
    {
        match self {
            Difficulty::Apprentice | Difficulty::FieldResearcher | Difficulty::ParanormalAnalyst
            | Difficulty::SeniorInvestigator | Difficulty::LeadResearcher
            | Difficulty::CaseManager => true,
            _ => false,
        }
    }

    /// Returns the tab the van's screen opens on: the loadout on the two
    /// easiest levels, the journal otherwise.
    pub fn default_van_tab(&self) -> (r: TabContents)
        ensures
            r == (if self.level() < 2 {
                TabContents::Loadout
            } else {
                TabContents::Journal
            }),
    {
        match self {
            Difficulty::Apprentice | Difficulty::FieldResearcher => TabContents::Loadout,
            _ => TabContents::Journal,
        }
    }

    /// Whether evidence can be marked as discarded in the journal: on the
    /// four easiest levels.
    pub fn allow_evidence_discard(&self) -> (r: bool)
        ensures
            r == (self.level() < 4),
    {
        match self {
            Difficulty::Apprentice | Difficulty::FieldResearcher | Difficulty::ParanormalAnalyst
            | Difficulty::SeniorInvestigator => true,
            _ => false,
        }
    }

    /// Returns the number of inventory slots: four on Apprentice, three on
    /// the next three levels, two from then on.
    pub fn max_inventory_slots(&self) -> (r: usize)
        ensures
            r == (if self.level() == 0 {
                4usize
            } else if self.level() < 4 {
                3usize
            } else {
                2usize
            }),
    {
        match self {
            Difficulty::Apprentice => 4,
            Difficulty::FieldResearcher | Difficulty::ParanormalAnalyst
            | Difficulty::SeniorInvestigator => 3,
            _ => 2,
        }
    }

    /// The display name of the level.
    pub open spec fn name_of(self) -> Seq<char> {
        match self {
            Difficulty::Apprentice => "Apprentice"@,
            Difficulty::FieldResearcher => "Field Researcher"@,
            Difficulty::ParanormalAnalyst => "Paranormal Analyst"@,
            Difficulty::SeniorInvestigator => "Senior Investigator"@,
            Difficulty::LeadResearcher => "Lead Researcher"@,
            Difficulty::CaseManager => "Case Manager"@,
            Difficulty::RegionalDirector => "Regional Director"@,
            Difficulty::NationalSpecialist => "National Specialist"@,
            Difficulty::GlobalExpert => "Global Expert"@,
            Difficulty::Archivist => "Archivist"@,
            Difficulty::OccultScholar => "Occult Scholar"@,
            Difficulty::Exorcist => "Exorcist"@,
            Difficulty::Parapsychologist => "Parapsychologist"@,
            Difficulty::SpiritualGuardian => "Spiritual Guardian"@,
            Difficulty::UnhaunterMaster => "Unhaunter Master"@,
            Difficulty::Legend => "Legend"@,
        }
    }

    /// Returns the display name of the level.
    pub fn difficulty_name(&self) -> (r: &'static str)
        ensures
            r@ == self.name_of(),
    {
        match self {
            Difficulty::Apprentice => "Apprentice",
            Difficulty::FieldResearcher => "Field Researcher",
            Difficulty::ParanormalAnalyst => "Paranormal Analyst",
            Difficulty::SeniorInvestigator => "Senior Investigator",
            Difficulty::LeadResearcher => "Lead Researcher",
            Difficulty::CaseManager => "Case Manager",
            Difficulty::RegionalDirector => "Regional Director",
            Difficulty::NationalSpecialist => "National Specialist",
            Difficulty::GlobalExpert => "Global Expert",
            Difficulty::Archivist => "Archivist",
            Difficulty::OccultScholar => "Occult Scholar",
            Difficulty::Exorcist => "Exorcist",
            Difficulty::Parapsychologist => "Parapsychologist",
            Difficulty::SpiritualGuardian => "Spiritual Guardian",
            Difficulty::UnhaunterMaster => "Unhaunter Master",
            Difficulty::Legend => "Legend",
        }
    }

    /// Returns every setting of the level gathered in one structure.
    pub fn create_difficulty_struct(&self) -> (r: DifficultyStruct)
        ensures
            r.matches(*self),
    {
        let name = self.difficulty_name();
        DifficultyStruct {
            ghost_speed: self.ghost_speed(),
            ghost_rage_likelihood: self.ghost_rage_likelihood(),
            ghost_hunting_aggression: self.ghost_hunting_aggression(),
            ghost_interaction_frequency: self.ghost_interaction_frequency(),
            ghost_hunt_duration: self.ghost_hunt_duration(),
            ghost_hunt_cooldown: self.ghost_hunt_cooldown(),
            ghost_attraction_to_breach: self.ghost_attraction_to_breach(),
            hunt_provocation_radius: self.hunt_provocation_radius(),
            attractive_removal_anger_rate: self.attractive_removal_anger_rate(),
            ambient_temperature: self.ambient_temperature(),
            temperature_spread_speed: self.temperature_spread_speed(),
            light_heat: self.light_heat(),
            darkness_intensity: self.darkness_intensity(),
            environment_gamma: self.environment_gamma(),
            starting_sanity: self.starting_sanity(),
            sanity_drain_rate: self.sanity_drain_rate(),
            health_drain_rate: self.health_drain_rate(),
            health_recovery_rate: self.health_recovery_rate(),
            player_speed: self.player_speed(),
            evidence_visibility: self.evidence_visibility(),
            equipment_sensitivity: self.equipment_sensitivity(),
            difficulty_score_multiplier: self.difficulty_score_multiplier(),
            van_auto_open: self.van_auto_open(),
            default_van_tab: self.default_van_tab(),
            allow_evidence_discard: self.allow_evidence_discard(),
            max_inventory_slots: self.max_inventory_slots(),
            difficulty_name: String::from_str(name),
        }
    }
}

/// The settings of one difficulty level; fractional settings are in
/// thousandths.
#[derive(Debug, Clone)]
pub struct DifficultyStruct {
    pub ghost_speed: u32,
    pub ghost_rage_likelihood: u32,
    pub ghost_hunting_aggression: u32,
    pub ghost_interaction_frequency: u32,
    pub ghost_hunt_duration: u32,
    pub ghost_hunt_cooldown: u32,
    pub ghost_attraction_to_breach: u32,
    pub hunt_provocation_radius: u32,
    pub attractive_removal_anger_rate: u32,
    pub ambient_temperature: u32,
    pub temperature_spread_speed: u32,
    pub light_heat: u32,
    pub darkness_intensity: u32,
    pub environment_gamma: u32,
    pub starting_sanity: u32,
    pub sanity_drain_rate: u32,
    pub health_drain_rate: u32,
    pub health_recovery_rate: u32,
    pub player_speed: u32,
    pub evidence_visibility: u32,
    pub equipment_sensitivity: u32,
    pub difficulty_score_multiplier: u32,
    pub van_auto_open: bool,
    pub default_van_tab: TabContents,
    pub allow_evidence_discard: bool,
    pub max_inventory_slots: usize,
    pub difficulty_name: String,
}

impl DifficultyStruct {
    /// Every field holds the setting of the level `d`.
    pub open spec fn matches(self, d: Difficulty) -> bool {
        &&& self.ghost_speed == d.ghost_speed_of()
        &&& self.ghost_rage_likelihood == d.ghost_rage_likelihood_of()
        &&& self.ghost_hunting_aggression == d.ghost_hunting_aggression_of()
        &&& self.ghost_interaction_frequency == d.ghost_interaction_frequency_of()
        &&& self.ghost_hunt_duration == d.ghost_hunt_duration_of()
        &&& self.ghost_hunt_cooldown == d.ghost_hunt_cooldown_of()
        &&& self.ghost_attraction_to_breach == d.ghost_attraction_to_breach_of()
        &&& self.hunt_provocation_radius == d.hunt_provocation_radius_of()
        &&& self.attractive_removal_anger_rate == d.attractive_removal_anger_rate_of()
        &&& self.ambient_temperature == d.ambient_temperature_of()
        &&& self.temperature_spread_speed == d.temperature_spread_speed_of()
        &&& self.light_heat == d.light_heat_of()
        &&& self.darkness_intensity == d.darkness_intensity_of()
        &&& self.environment_gamma == d.environment_gamma_of()
        &&& self.starting_sanity == d.starting_sanity_of()
        &&& self.sanity_drain_rate == d.sanity_drain_rate_of()
        &&& self.health_drain_rate == d.health_drain_rate_of()
        &&& self.health_recovery_rate == d.health_recovery_rate_of()
        &&& self.player_speed == d.player_speed_of()
        &&& self.evidence_visibility == d.evidence_visibility_of()
        &&& self.equipment_sensitivity == d.equipment_sensitivity_of()
        &&& self.difficulty_score_multiplier == d.difficulty_score_multiplier_of()
        &&& self.van_auto_open == (d.level() < 6)
        &&& self.default_van_tab == (if d.level() < 2 {
            TabContents::Loadout
        } else {
            TabContents::Journal
        })
        &&& self.allow_evidence_discard == (d.level() < 4)
        &&& self.max_inventory_slots == (if d.level() == 0 {
            4usize
        } else if d.level() < 4 {
            3usize
        } else {
            2usize
        })
        &&& self.difficulty_name@ == d.name_of()
    }
}

/// The level `k` places after `d`, moving with `next`.
pub open spec fn next_n(d: Difficulty, k: nat) -> Difficulty
    decreases k,
{
    if k == 0 {
        d
    } else {
        next_n(d, (k - 1) as nat).next_of()
    }
}

/// A level is the level of its position, and positions run over `0..16`.
pub proof fn lemma_level_roundtrip(d: Difficulty)
    ensures
        Difficulty::from_level(d.level()) == d,
        0 <= d.level() < 16,
{
}

/// The level at position `i` has position `i`.
pub proof fn lemma_from_level(i: int)
    requires
        0 <= i < 16,
    ensures
        Difficulty::from_level(i).level() == i,
{
}

/// `next` and `prev` undo each other.
pub proof fn lemma_next_prev_inverse(d: Difficulty)
    ensures
        d.next_of().prev_of() == d,
        d.prev_of().next_of() == d,
{
}

proof fn lemma_next_n_level(d: Difficulty, k: nat)
    ensures
        next_n(d, k).level() == (d.level() + k) % 16,
    decreases k,
{
    if k > 0 {
        lemma_next_n_level(d, (k - 1) as nat);
        let m = (d.level() + k - 1) % 16;
        lemma_from_level((m + 1) % 16);
        assert((m + 1) % 16 == (d.level() + k) % 16);
    }
}

/// Moving to the next level sixteen times comes back to the same level:
/// `next` walks through every level once before wrapping around.
pub proof fn lemma_next_full_cycle(d: Difficulty)
    ensures
        next_n(d, 16) == d,
        forall|k: nat| 0 < k < 16 ==> #[trigger] next_n(d, k) != d,
{
    lemma_next_n_level(d, 16);
    lemma_level_roundtrip(d);
    lemma_level_roundtrip(next_n(d, 16));
    assert forall|k: nat| 0 < k < 16 implies #[trigger] next_n(d, k) != d by {
        lemma_next_n_level(d, k);
    }
}

/// Every setting moves monotonically towards a harder game from Apprentice
/// to Legend: the ghost gets faster, angrier and more active, the house
/// colder and darker, the player weaker and slower, evidence fainter, gear
/// less sensitive and fewer comforts are offered, and the score multiplier
/// grows.
pub proof fn lemma_harder_levels(d1: Difficulty, d2: Difficulty)
    requires
        d1.level() <= d2.level(),
    ensures
        d1.ghost_speed_of() <= d2.ghost_speed_of(),
        d1.ghost_rage_likelihood_of() <= d2.ghost_rage_likelihood_of(),
        d1.ghost_hunting_aggression_of() <= d2.ghost_hunting_aggression_of(),
        d1.ghost_interaction_frequency_of() <= d2.ghost_interaction_frequency_of(),
        d1.ghost_hunt_duration_of() <= d2.ghost_hunt_duration_of(),
        d1.ghost_hunt_cooldown_of() >= d2.ghost_hunt_cooldown_of(),
        d1.ghost_attraction_to_breach_of() >= d2.ghost_attraction_to_breach_of(),
        d1.hunt_provocation_radius_of() <= d2.hunt_provocation_radius_of(),
        d1.attractive_removal_anger_rate_of() <= d2.attractive_removal_anger_rate_of(),
        d1.ambient_temperature_of() >= d2.ambient_temperature_of(),
        d1.temperature_spread_speed_of() <= d2.temperature_spread_speed_of(),
        d1.light_heat_of() <= d2.light_heat_of(),
        d1.darkness_intensity_of() <= d2.darkness_intensity_of(),
        d1.environment_gamma_of() >= d2.environment_gamma_of(),
        d1.starting_sanity_of() >= d2.starting_sanity_of(),
        d1.sanity_drain_rate_of() <= d2.sanity_drain_rate_of(),
        d1.health_drain_rate_of() <= d2.health_drain_rate_of(),
        d1.health_recovery_rate_of() >= d2.health_recovery_rate_of(),
        d1.player_speed_of() >= d2.player_speed_of(),
        d1.evidence_visibility_of() >= d2.evidence_visibility_of(),
        d1.equipment_sensitivity_of() >= d2.equipment_sensitivity_of(),
        d1.difficulty_score_multiplier_of() <= d2.difficulty_score_multiplier_of(),
        d2.level() < 6 ==> d1.level() < 6,
        d2.level() < 4 ==> d1.level() < 4,
{
}

} // verus!
