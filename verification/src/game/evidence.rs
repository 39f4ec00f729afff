//! The evidence line of the game screen: what the gear in the right hand
//! can find and what the player marked of it in the van.

use vstd::prelude::*;

use crate::ghost_definitions::Evidence;

verus! {

/// How the player marked an evidence in the van's journal.
#[derive(Debug, Clone, Copy, PartialEq, Eq, Structural)]
pub enum TruckButtonState {
    Off,
    Pressed,
    Discard,
}

/// The colour the status is written in.
#[derive(Debug, Clone, Copy, PartialEq, Eq, Structural)]
pub enum StatusColor {
    /// The colour of the inventory text.
    Neutral,
    /// Green: the evidence was found.
    Found,
    /// Red: the evidence was discarded.
    Discarded,
}

/// The texts of the evidence line.
#[derive(Debug, Clone)]
pub struct EvidenceStatus {
    pub title: String,
    pub status: String,
    pub status_color: StatusColor,
    pub help_text: String,
}

/// The status text for a journal mark.
pub open spec fn status_text(s: TruckButtonState) -> Seq<char> {
    match s {
        TruckButtonState::Off => "[ ] Unknown\n"@,
        TruckButtonState::Pressed => "[+] Found\n"@,
        TruckButtonState::Discard => "[-] Discarded\n"@,
    }
}

/// The status colour for a journal mark.
pub open spec fn status_color_of(s: TruckButtonState) -> StatusColor {
    match s {
        TruckButtonState::Off => StatusColor::Neutral,
        TruckButtonState::Pressed => StatusColor::Found,
        TruckButtonState::Discard => StatusColor::Discarded,
    }
}

impl EvidenceStatus {
    /// The evidence line for the evidence that the held gear finds, if any,
    /// and how it is marked: its name as title, the mark and the hint on how
    /// to find it; without an evidence, only a hint that there is none.
    pub fn from_gearkind(o_evidence: Option<Evidence>, ev_state: TruckButtonState) -> (r:
        EvidenceStatus)
        ensures
            match o_evidence {
                None => r.title@.len() == 0 && r.status@.len() == 0 && r.status_color
                    == StatusColor::Neutral && r.help_text@ == "No evidence for selected gear."@,
                Some(e) => r.title@ == e.name_of() + ": "@ && r.status@ == status_text(ev_state)
                    && r.status_color == status_color_of(ev_state) && r.help_text@
                    == e.help_text_of(),
            },
    {
        let evidence = match o_evidence {
            Some(e) => e,
            None => {
                return EvidenceStatus {
                    title: String::new(),
                    status: String::new(),
                    status_color: StatusColor::Neutral,
                    help_text: String::from_str("No evidence for selected gear."),
                };
            },
        };
        let title = String::from_str(evidence.name()).concat(": ");
        let help_text = String::from_str(evidence.help_text());
        let status = String::from_str(
            match ev_state {
                TruckButtonState::Off => "[ ] Unknown\n",
                TruckButtonState::Pressed => "[+] Found\n",
                TruckButtonState::Discard => "[-] Discarded\n",
            },
        );
        let status_color = match ev_state {
            TruckButtonState::Off => StatusColor::Neutral,
            TruckButtonState::Pressed => StatusColor::Found,
            TruckButtonState::Discard => StatusColor::Discarded,
        };
        EvidenceStatus { title, status, status_color, help_text }
    }
}

} // verus!
