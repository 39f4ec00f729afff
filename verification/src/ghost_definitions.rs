//! The ghost catalogue: the kinds of evidence, the ghost types and the set of
//! evidences that each ghost type leaves behind.

use vstd::prelude::*;

use crate::gear::{kind_tag, GearKind};
use crate::gear::switchable::{
    EMFMeter, GeigerCounter, Recorder, RedTorch, SpiritBox, Thermometer, UVTorch, Videocam,
};

verus! {

/// A kind of evidence that a ghost can leave behind.
#[derive(Debug, Clone, Copy, PartialEq, Eq, Hash, Structural)]
pub enum Evidence {
    FreezingTemp,
    FloatingOrbs,
    UVEctoplasm,
    EMFLevel5,
    EVPRecording,
    SpiritBox,
    RLPresence,
    CPM500,
}

/// `2^i` for the eight bit positions of a byte.
pub open spec fn two_pow(i: int) -> int {
    if i == 0 {
        1
    } else if i == 1 {
        2
    } else if i == 2 {
        4
    } else if i == 3 {
        8
    } else if i == 4 {
        16
    } else if i == 5 {
        32
    } else if i == 6 {
        64
    } else if i == 7 {
        128
    } else {
        256
    }
}

/// Whether bit `i` of `bits` is set.
pub open spec fn bit_of(bits: int, i: int) -> bool {
    (bits / two_pow(i)) % 2 == 1
}

/// Number of set bits among the lowest `n` bits of `bits`.
pub open spec fn count_upto(bits: int, n: nat) -> nat
    decreases n,
{
    if n == 0 {
        0
    } else {
        count_upto(bits, (n - 1) as nat) + if bit_of(bits, n - 1) {
            1nat
        } else {
            0nat
        }
    }
}

/// Number of set bits of a byte.
pub open spec fn bit_count(bits: int) -> nat {
    count_upto(bits, 8)
}

impl Evidence {
    /// Position of the evidence in declaration order; it is also the bit that
    /// stands for it in an evidence bitmask.
    pub open spec fn idx(self) -> int {
        match self {
            Evidence::FreezingTemp => 0,
            Evidence::FloatingOrbs => 1,
            Evidence::UVEctoplasm => 2,
            Evidence::EMFLevel5 => 3,
            Evidence::EVPRecording => 4,
            Evidence::SpiritBox => 5,
            Evidence::RLPresence => 6,
            Evidence::CPM500 => 7,
        }
    }

    /// The evidence at position `i` in declaration order.
    pub open spec fn from_idx(i: int) -> Evidence {
        if i == 0 {
            Evidence::FreezingTemp
        } else if i == 1 {
            Evidence::FloatingOrbs
        } else if i == 2 {
            Evidence::UVEctoplasm
        } else if i == 3 {
            Evidence::EMFLevel5
        } else if i == 4 {
            Evidence::EVPRecording
        } else if i == 5 {
            Evidence::SpiritBox
        } else if i == 6 {
            Evidence::RLPresence
        } else {
            Evidence::CPM500
        }
    }

    /// All evidences in declaration order.
    pub open spec fn all_seq() -> Seq<Evidence> {
        seq![
            Evidence::FreezingTemp,
            Evidence::FloatingOrbs,
            Evidence::UVEctoplasm,
            Evidence::EMFLevel5,
            Evidence::EVPRecording,
            Evidence::SpiritBox,
            Evidence::RLPresence,
            Evidence::CPM500,
        ]
    }

    /// Returns the bit position of this evidence.
    pub fn index(&self) -> (r: u8)
        ensures
            r == self.idx(),
    {
        match self {
            Evidence::FreezingTemp => 0,
            Evidence::FloatingOrbs => 1,
            Evidence::UVEctoplasm => 2,
            Evidence::EMFLevel5 => 3,
            Evidence::EVPRecording => 4,
            Evidence::SpiritBox => 5,
            Evidence::RLPresence => 6,
            Evidence::CPM500 => 7,
        }
    }

    /// Returns every evidence, in declaration order.
    pub fn all() -> (r: Vec<Evidence>)
        ensures
            r@ == Self::all_seq(),
    {
        let r = vec![
            Evidence::FreezingTemp,
            Evidence::FloatingOrbs,
            Evidence::UVEctoplasm,
            Evidence::EMFLevel5,
            Evidence::EVPRecording,
            Evidence::SpiritBox,
            Evidence::RLPresence,
            Evidence::CPM500,
        ];
        assert(r@ =~= Self::all_seq());
        r
    }

    /// The display name of the evidence.
    pub open spec fn name_of(self) -> Seq<char> {
        match self {
            Evidence::FreezingTemp => "Freezing Temps"@,
            Evidence::FloatingOrbs => "Floating Orbs"@,
            Evidence::UVEctoplasm => "UV Ectoplasm"@,
            Evidence::EMFLevel5 => "EMF Level 5"@,
            Evidence::EVPRecording => "EVP Recording"@,
            Evidence::SpiritBox => "Spirit Box"@,
            Evidence::RLPresence => "RL Presence"@,
            Evidence::CPM500 => "500+ cpm"@,
        }
    }

    /// Returns the display name of the evidence.
    pub fn name(&self) -> (r: &'static str)
        ensures
            r@ == self.name_of(),
    {
        match self {
            Evidence::FreezingTemp => "Freezing Temps",
            Evidence::FloatingOrbs => "Floating Orbs",
            Evidence::UVEctoplasm => "UV Ectoplasm",
            Evidence::EMFLevel5 => "EMF Level 5",
            Evidence::EVPRecording => "EVP Recording",
            Evidence::SpiritBox => "Spirit Box",
            Evidence::RLPresence => "RL Presence",
            Evidence::CPM500 => "500+ cpm",
        }
    }

    /// The hint shown to the player on how to find the evidence.
    pub open spec fn help_text_of(self) -> Seq<char> {
        match self {
            Evidence::FreezingTemp => "The ghost and breach makes the ambient colder.\nSome ghosts will make the temperature drop below 0.0ºC."@,
            Evidence::FloatingOrbs => "Check if the breack lights up under Night vision.\nLights need to be off."@,
            Evidence::UVEctoplasm => "Check if the ghost turns green under UV.\nLights need to be off."@,
            Evidence::EMFLevel5 => "Some ghosts will register EMF5 on the meter.\nFollow the ghost close by and keep an eye on the reading."@,
            Evidence::EVPRecording => "Some ghost leave recordings. Keep an eye on the recorder.\nIf a EVP Recording is made, [EVP RECORDED] will appear."@,
            Evidence::SpiritBox => "Some ghosts talk trough the SpiritBox.\nIf you hear the ghost talking through it, mark this evidence."@,
            Evidence::RLPresence => "Some ghosts glow orange under red light.\nLights need to be off."@,
            Evidence::CPM500 => "Some ghosts are radioactive and will register above than 500cpm.\nIt takes time for the Geiger counter to settle into a value."@,
        }
    }

    /// Returns the hint shown to the player on how to find the evidence.
    pub fn help_text(&self) -> (r: &'static str)
        ensures
            r@ == self.help_text_of(),
    {
        match self {
            Evidence::FreezingTemp => "The ghost and breach makes the ambient colder.\nSome ghosts will make the temperature drop below 0.0ºC.",
            Evidence::FloatingOrbs => "Check if the breack lights up under Night vision.\nLights need to be off.",
            Evidence::UVEctoplasm => "Check if the ghost turns green under UV.\nLights need to be off.",
            Evidence::EMFLevel5 => "Some ghosts will register EMF5 on the meter.\nFollow the ghost close by and keep an eye on the reading.",
            Evidence::EVPRecording => "Some ghost leave recordings. Keep an eye on the recorder.\nIf a EVP Recording is made, [EVP RECORDED] will appear.",
            Evidence::SpiritBox => "Some ghosts talk trough the SpiritBox.\nIf you hear the ghost talking through it, mark this evidence.",
            Evidence::RLPresence => "Some ghosts glow orange under red light.\nLights need to be off.",
            Evidence::CPM500 => "Some ghosts are radioactive and will register above than 500cpm.\nIt takes time for the Geiger counter to settle into a value.",
        }
    }

    /// Returns the set of evidences whose bit is set in `bits`: bit `i`
    /// stands for the evidence of index `i` in declaration order.
    pub fn from_bits(bits: u8) -> (r: EvidenceSet)
        ensures
            r.bits == bits,
            forall|e: Evidence| #[trigger] r@.contains(e) <==> bit_of(bits as int, e.idx()),
    {
        let mut r = EvidenceSet::new();
        let mut i: u8 = 0;
        let mut mask: u8 = 1;
        while i < 8
            invariant
                i <= 8,
                i < 8 ==> mask as int == two_pow(i as int),
                forall|e: Evidence| #[trigger]
                    r@.contains(e) <==> (e.idx() < i && bit_of(bits as int, e.idx())),
            decreases 8 - i,
        {
            let evidence = Evidence::from_index(i);
            if (bits / mask) % 2 == 1 {
                r.insert(evidence);
            }
            assert forall|e: Evidence| #[trigger]
                r@.contains(e) <==> (e.idx() < i + 1 && bit_of(bits as int, e.idx())) by {
                if e.idx() == i as int {
                    assert(e == evidence);
                }
            }
            i = i + 1;
            if i < 8 {
                mask = mask * 2;
            }
        }
        assert forall|j: int| 0 <= j < 8 implies #[trigger] bit_of(r.bits as int, j) == bit_of(
            bits as int,
            j,
        ) by {
            let e = Evidence::from_idx(j);
            assert(e.idx() == j);
            assert(r@.contains(e) == bit_of(r.bits as int, j));
        }
        proof {
            lemma_bits_determine_byte(r.bits, bits);
        }
        r
    }

    /// Returns the evidence at position `i` in declaration order.
    pub fn from_index(i: u8) -> (r: Evidence)
        requires
            i < 8,
        ensures
            r == Self::from_idx(i as int),
            r.idx() == i,
    {
        match i {
            0 => Evidence::FreezingTemp,
            1 => Evidence::FloatingOrbs,
            2 => Evidence::UVEctoplasm,
            3 => Evidence::EMFLevel5,
            4 => Evidence::EVPRecording,
            5 => Evidence::SpiritBox,
            6 => Evidence::RLPresence,
            _ => Evidence::CPM500,
        }
    }

    /// The evidence that a piece of gear can register, if any.
    pub open spec fn gear_evidence(gear: GearKind) -> Option<Evidence> {
        match gear {
            GearKind::Thermometer(_) => Some(Evidence::FreezingTemp),
            GearKind::EMFMeter(_) => Some(Evidence::EMFLevel5),
            GearKind::Recorder(_) => Some(Evidence::EVPRecording),
            GearKind::GeigerCounter(_) => Some(Evidence::CPM500),
            GearKind::UVTorch(_) => Some(Evidence::UVEctoplasm),
            GearKind::SpiritBox(_) => Some(Evidence::SpiritBox),
            GearKind::RedTorch(_) => Some(Evidence::RLPresence),
            GearKind::Videocam(_) => Some(Evidence::FloatingOrbs),
            _ => None,
        }
    }

    /// Returns the evidence that the given gear registers, or
    /// `NoEvidenceForGear` for gear that registers none.
    pub fn try_from(value: &GearKind) -> (r: Result<Evidence, EvidenceError>)
        ensures
            r matches Ok(e) ==> Self::gear_evidence(*value) == Some(e),
            r is Err <==> Self::gear_evidence(*value) is None,
            r matches Err(err) ==> err == EvidenceError::NoEvidenceForGear,
    {
        match value {
            GearKind::Thermometer(_) => Ok(Evidence::FreezingTemp),
            GearKind::EMFMeter(_) => Ok(Evidence::EMFLevel5),
            GearKind::Recorder(_) => Ok(Evidence::EVPRecording),
            GearKind::GeigerCounter(_) => Ok(Evidence::CPM500),
            GearKind::UVTorch(_) => Ok(Evidence::UVEctoplasm),
            GearKind::SpiritBox(_) => Ok(Evidence::SpiritBox),
            GearKind::RedTorch(_) => Ok(Evidence::RLPresence),
            GearKind::Videocam(_) => Ok(Evidence::FloatingOrbs),
            GearKind::Flashlight(_) => Err(EvidenceError::NoEvidenceForGear),
            GearKind::IonMeter(_) => Err(EvidenceError::NoEvidenceForGear),
            GearKind::ThermalImager(_) => Err(EvidenceError::NoEvidenceForGear),
            GearKind::Photocam(_) => Err(EvidenceError::NoEvidenceForGear),
            GearKind::Compass(_) => Err(EvidenceError::NoEvidenceForGear),
            GearKind::EStaticMeter(_) => Err(EvidenceError::NoEvidenceForGear),
            GearKind::MotionSensor(_) => Err(EvidenceError::NoEvidenceForGear),
            GearKind::RepellentFlask(_) => Err(EvidenceError::NoEvidenceForGear),
            GearKind::QuartzStone(_) => Err(EvidenceError::NoEvidenceForGear),
            GearKind::Salt(_) => Err(EvidenceError::NoEvidenceForGear),
            GearKind::SageBundle(_) => Err(EvidenceError::NoEvidenceForGear),
            GearKind::Empty => Err(EvidenceError::NoEvidenceForGear),
        }
    }
}

/// Error for gear that cannot register any evidence.
#[derive(Debug, Clone, Copy, PartialEq, Eq, Structural)]
pub enum EvidenceError {
    NoEvidenceForGear,
}

impl EvidenceError {
    /// Returns the message of the error.
    pub fn message(&self) -> (r: &'static str)
        ensures
            r@ == "No Evidence for Gear"@,
    {
        "No Evidence for Gear"
    }
}

/// A set of evidences, held as a bitmask: bit `i` is set when the evidence of
/// index `i` is in the set.
#[derive(Debug, Clone, Copy, PartialEq, Eq, Hash, Structural)]
pub struct EvidenceSet {
    pub bits: u8,
}

impl View for EvidenceSet {
    type V = Set<Evidence>;

    open spec fn view(&self) -> Set<Evidence> {
        Set::new(|e: Evidence| bit_of(self.bits as int, e.idx()))
    }
}

/// The evidences among the first `n` in declaration order whose bit is set.
pub open spec fn set_upto(bits: int, n: nat) -> Set<Evidence>
    decreases n,
{
    if n == 0 {
        Set::empty()
    } else {
        let s = set_upto(bits, (n - 1) as nat);
        if bit_of(bits, n - 1) {
            s.insert(Evidence::from_idx(n - 1))
        } else {
            s
        }
    }
}

proof fn lemma_set_upto(bits: int, n: nat)
    requires
        n <= 8,
    ensures
        set_upto(bits, n).finite(),
        set_upto(bits, n).len() == count_upto(bits, n),
        forall|e: Evidence| #[trigger]
            set_upto(bits, n).contains(e) <==> (e.idx() < n && bit_of(bits, e.idx())),
    decreases n,
{
    if n > 0 {
        lemma_set_upto(bits, (n - 1) as nat);
        let e = Evidence::from_idx(n - 1);
        assert(e.idx() == n - 1);
        assert forall|x: Evidence| x.idx() == n - 1 implies x == e by {}
    }
}

/// The number of evidences in a set is the number of set bits of its mask.
pub proof fn lemma_evidence_set_len(s: EvidenceSet)
    ensures
        s@.finite(),
        s@.len() == bit_count(s.bits as int),
{
    lemma_set_upto(s.bits as int, 8);
    assert(s@ =~= set_upto(s.bits as int, 8));
}

/// Two bytes with the same eight bits are equal.
proof fn lemma_bits_determine_byte(a: u8, b: u8)
    requires
        forall|j: int| 0 <= j < 8 ==> #[trigger] bit_of(a as int, j) == bit_of(b as int, j),
    ensures
        a == b,
{
    assert(bit_of(a as int, 0) == bit_of(b as int, 0));
    assert(bit_of(a as int, 1) == bit_of(b as int, 1));
    assert(bit_of(a as int, 2) == bit_of(b as int, 2));
    assert(bit_of(a as int, 3) == bit_of(b as int, 3));
    assert(bit_of(a as int, 4) == bit_of(b as int, 4));
    assert(bit_of(a as int, 5) == bit_of(b as int, 5));
    assert(bit_of(a as int, 6) == bit_of(b as int, 6));
    assert(bit_of(a as int, 7) == bit_of(b as int, 7));
    lemma_bits_eq_by_bv(a, b);
}

proof fn lemma_bits_eq_by_bv(a: u8, b: u8)
    requires
        (a / 1) % 2 == (b / 1) % 2,
        (a / 2) % 2 == (b / 2) % 2,
        (a / 4) % 2 == (b / 4) % 2,
        (a / 8) % 2 == (b / 8) % 2,
        (a / 16) % 2 == (b / 16) % 2,
        (a / 32) % 2 == (b / 32) % 2,
        (a / 64) % 2 == (b / 64) % 2,
        (a / 128) % 2 == (b / 128) % 2,
    ensures
        a == b,
{
    assert(a == b) by (bit_vector)
        requires
            (a / 1) % 2 == (b / 1) % 2,
            (a / 2) % 2 == (b / 2) % 2,
            (a / 4) % 2 == (b / 4) % 2,
            (a / 8) % 2 == (b / 8) % 2,
            (a / 16) % 2 == (b / 16) % 2,
            (a / 32) % 2 == (b / 32) % 2,
            (a / 64) % 2 == (b / 64) % 2,
            (a / 128) % 2 == (b / 128) % 2,
    ;
}

/// Adding `2^i` to a byte whose bit `i` is clear sets bit `i` and keeps the others.
proof fn lemma_set_bit(b: u8, i: int)
    requires
        0 <= i < 8,
        !bit_of(b as int, i),
    ensures
        b as int + two_pow(i) < 256,
        forall|j: int| 0 <= j < 8 ==> #[trigger] bit_of(b as int + two_pow(i), j) == (j == i
            || bit_of(b as int, j)),
{
    lemma_set_bit_bv(b as u16);
}

proof fn lemma_set_bit_bv(b: u16)
    by (bit_vector)
    requires
        b < 256u16,
    ensures
        (b / 1u16) % 2u16 != 1u16 ==> (((b + 1u16) as u16) < 256u16 && ((((b + 1u16) as u16)) / 1u16) % 2u16 == 1u16 && (((((b + 1u16) as u16)) / 2u16) % 2u16 == 1u16) == ((b / 2u16) % 2u16 == 1u16) && (((((b + 1u16) as u16)) / 4u16) % 2u16 == 1u16) == ((b / 4u16) % 2u16 == 1u16) && (((((b + 1u16) as u16)) / 8u16) % 2u16 == 1u16) == ((b / 8u16) % 2u16 == 1u16) && (((((b + 1u16) as u16)) / 16u16) % 2u16 == 1u16) == ((b / 16u16) % 2u16 == 1u16) && (((((b + 1u16) as u16)) / 32u16) % 2u16 == 1u16) == ((b / 32u16) % 2u16 == 1u16) && (((((b + 1u16) as u16)) / 64u16) % 2u16 == 1u16) == ((b / 64u16) % 2u16 == 1u16) && (((((b + 1u16) as u16)) / 128u16) % 2u16 == 1u16) == ((b / 128u16) % 2u16 == 1u16)),
        (b / 2u16) % 2u16 != 1u16 ==> (((b + 2u16) as u16) < 256u16 && (((((b + 2u16) as u16)) / 1u16) % 2u16 == 1u16) == ((b / 1u16) % 2u16 == 1u16) && ((((b + 2u16) as u16)) / 2u16) % 2u16 == 1u16 && (((((b + 2u16) as u16)) / 4u16) % 2u16 == 1u16) == ((b / 4u16) % 2u16 == 1u16) && (((((b + 2u16) as u16)) / 8u16) % 2u16 == 1u16) == ((b / 8u16) % 2u16 == 1u16) && (((((b + 2u16) as u16)) / 16u16) % 2u16 == 1u16) == ((b / 16u16) % 2u16 == 1u16) && (((((b + 2u16) as u16)) / 32u16) % 2u16 == 1u16) == ((b / 32u16) % 2u16 == 1u16) && (((((b + 2u16) as u16)) / 64u16) % 2u16 == 1u16) == ((b / 64u16) % 2u16 == 1u16) && (((((b + 2u16) as u16)) / 128u16) % 2u16 == 1u16) == ((b / 128u16) % 2u16 == 1u16)),
        (b / 4u16) % 2u16 != 1u16 ==> (((b + 4u16) as u16) < 256u16 && (((((b + 4u16) as u16)) / 1u16) % 2u16 == 1u16) == ((b / 1u16) % 2u16 == 1u16) && (((((b + 4u16) as u16)) / 2u16) % 2u16 == 1u16) == ((b / 2u16) % 2u16 == 1u16) && ((((b + 4u16) as u16)) / 4u16) % 2u16 == 1u16 && (((((b + 4u16) as u16)) / 8u16) % 2u16 == 1u16) == ((b / 8u16) % 2u16 == 1u16) && (((((b + 4u16) as u16)) / 16u16) % 2u16 == 1u16) == ((b / 16u16) % 2u16 == 1u16) && (((((b + 4u16) as u16)) / 32u16) % 2u16 == 1u16) == ((b / 32u16) % 2u16 == 1u16) && (((((b + 4u16) as u16)) / 64u16) % 2u16 == 1u16) == ((b / 64u16) % 2u16 == 1u16) && (((((b + 4u16) as u16)) / 128u16) % 2u16 == 1u16) == ((b / 128u16) % 2u16 == 1u16)),
        (b / 8u16) % 2u16 != 1u16 ==> (((b + 8u16) as u16) < 256u16 && (((((b + 8u16) as u16)) / 1u16) % 2u16 == 1u16) == ((b / 1u16) % 2u16 == 1u16) && (((((b + 8u16) as u16)) / 2u16) % 2u16 == 1u16) == ((b / 2u16) % 2u16 == 1u16) && (((((b + 8u16) as u16)) / 4u16) % 2u16 == 1u16) == ((b / 4u16) % 2u16 == 1u16) && ((((b + 8u16) as u16)) / 8u16) % 2u16 == 1u16 && (((((b + 8u16) as u16)) / 16u16) % 2u16 == 1u16) == ((b / 16u16) % 2u16 == 1u16) && (((((b + 8u16) as u16)) / 32u16) % 2u16 == 1u16) == ((b / 32u16) % 2u16 == 1u16) && (((((b + 8u16) as u16)) / 64u16) % 2u16 == 1u16) == ((b / 64u16) % 2u16 == 1u16) && (((((b + 8u16) as u16)) / 128u16) % 2u16 == 1u16) == ((b / 128u16) % 2u16 == 1u16)),
        (b / 16u16) % 2u16 != 1u16 ==> (((b + 16u16) as u16) < 256u16 && (((((b + 16u16) as u16)) / 1u16) % 2u16 == 1u16) == ((b / 1u16) % 2u16 == 1u16) && (((((b + 16u16) as u16)) / 2u16) % 2u16 == 1u16) == ((b / 2u16) % 2u16 == 1u16) && (((((b + 16u16) as u16)) / 4u16) % 2u16 == 1u16) == ((b / 4u16) % 2u16 == 1u16) && (((((b + 16u16) as u16)) / 8u16) % 2u16 == 1u16) == ((b / 8u16) % 2u16 == 1u16) && ((((b + 16u16) as u16)) / 16u16) % 2u16 == 1u16 && (((((b + 16u16) as u16)) / 32u16) % 2u16 == 1u16) == ((b / 32u16) % 2u16 == 1u16) && (((((b + 16u16) as u16)) / 64u16) % 2u16 == 1u16) == ((b / 64u16) % 2u16 == 1u16) && (((((b + 16u16) as u16)) / 128u16) % 2u16 == 1u16) == ((b / 128u16) % 2u16 == 1u16)),
        (b / 32u16) % 2u16 != 1u16 ==> (((b + 32u16) as u16) < 256u16 && (((((b + 32u16) as u16)) / 1u16) % 2u16 == 1u16) == ((b / 1u16) % 2u16 == 1u16) && (((((b + 32u16) as u16)) / 2u16) % 2u16 == 1u16) == ((b / 2u16) % 2u16 == 1u16) && (((((b + 32u16) as u16)) / 4u16) % 2u16 == 1u16) == ((b / 4u16) % 2u16 == 1u16) && (((((b + 32u16) as u16)) / 8u16) % 2u16 == 1u16) == ((b / 8u16) % 2u16 == 1u16) && (((((b + 32u16) as u16)) / 16u16) % 2u16 == 1u16) == ((b / 16u16) % 2u16 == 1u16) && ((((b + 32u16) as u16)) / 32u16) % 2u16 == 1u16 && (((((b + 32u16) as u16)) / 64u16) % 2u16 == 1u16) == ((b / 64u16) % 2u16 == 1u16) && (((((b + 32u16) as u16)) / 128u16) % 2u16 == 1u16) == ((b / 128u16) % 2u16 == 1u16)),
        (b / 64u16) % 2u16 != 1u16 ==> (((b + 64u16) as u16) < 256u16 && (((((b + 64u16) as u16)) / 1u16) % 2u16 == 1u16) == ((b / 1u16) % 2u16 == 1u16) && (((((b + 64u16) as u16)) / 2u16) % 2u16 == 1u16) == ((b / 2u16) % 2u16 == 1u16) && (((((b + 64u16) as u16)) / 4u16) % 2u16 == 1u16) == ((b / 4u16) % 2u16 == 1u16) && (((((b + 64u16) as u16)) / 8u16) % 2u16 == 1u16) == ((b / 8u16) % 2u16 == 1u16) && (((((b + 64u16) as u16)) / 16u16) % 2u16 == 1u16) == ((b / 16u16) % 2u16 == 1u16) && (((((b + 64u16) as u16)) / 32u16) % 2u16 == 1u16) == ((b / 32u16) % 2u16 == 1u16) && ((((b + 64u16) as u16)) / 64u16) % 2u16 == 1u16 && (((((b + 64u16) as u16)) / 128u16) % 2u16 == 1u16) == ((b / 128u16) % 2u16 == 1u16)),
        (b / 128u16) % 2u16 != 1u16 ==> (((b + 128u16) as u16) < 256u16 && (((((b + 128u16) as u16)) / 1u16) % 2u16 == 1u16) == ((b / 1u16) % 2u16 == 1u16) && (((((b + 128u16) as u16)) / 2u16) % 2u16 == 1u16) == ((b / 2u16) % 2u16 == 1u16) && (((((b + 128u16) as u16)) / 4u16) % 2u16 == 1u16) == ((b / 4u16) % 2u16 == 1u16) && (((((b + 128u16) as u16)) / 8u16) % 2u16 == 1u16) == ((b / 8u16) % 2u16 == 1u16) && (((((b + 128u16) as u16)) / 16u16) % 2u16 == 1u16) == ((b / 16u16) % 2u16 == 1u16) && (((((b + 128u16) as u16)) / 32u16) % 2u16 == 1u16) == ((b / 32u16) % 2u16 == 1u16) && (((((b + 128u16) as u16)) / 64u16) % 2u16 == 1u16) == ((b / 64u16) % 2u16 == 1u16) && ((((b + 128u16) as u16)) / 128u16) % 2u16 == 1u16),
{
}

impl EvidenceSet {
    /// Creates an empty set.
    pub fn new() -> (r: EvidenceSet)
        ensures
            r.bits == 0,
            r@ == Set::<Evidence>::empty(),
    {
        let r = EvidenceSet { bits: 0 };
        assert(r@ =~= Set::<Evidence>::empty());
        r
    }

    /// Returns whether the evidence is in the set.
    pub fn contains(&self, e: &Evidence) -> (r: bool)
        ensures
            r == self@.contains(*e),
    {
        let i = e.index();
        let p = EvidenceSet::pow_of(i);
        (self.bits / p) % 2 == 1
    }

    fn pow_of(i: u8) -> (r: u8)
        requires
            i < 8,
        ensures
            r as int == two_pow(i as int),
            r > 0,
    {
        match i {
            0 => 1,
            1 => 2,
            2 => 4,
            3 => 8,
            4 => 16,
            5 => 32,
            6 => 64,
            _ => 128,
        }
    }

    /// Adds the evidence to the set; returns whether it was absent before.
    pub fn insert(&mut self, e: Evidence) -> (r: bool)
        ensures
            r == !old(self)@.contains(e),
            final(self)@ == old(self)@.insert(e),
    {
        let i = e.index();
        let p = EvidenceSet::pow_of(i);
        if (self.bits / p) % 2 == 1 {
            assert(self@ =~= self@.insert(e));
            false
        } else {
            proof {
                lemma_set_bit(self.bits, i as int);
            }
            let ghost before = *self;
            self.bits = self.bits + p;
            assert forall|x: Evidence| #[trigger] self@.contains(x) == before@.insert(e).contains(
                x,
            ) by {
                if x.idx() == e.idx() {
                    assert(x == e);
                }
            }
            assert(self@ =~= before@.insert(e));
            true
        }
    }

    /// Returns the number of evidences in the set.
    pub fn len(&self) -> (r: usize)
        ensures
            r == self@.len(),
    {
        proof {
            lemma_evidence_set_len(*self);
        }
        let mut n: usize = 0;
        let mut i: u8 = 0;
        while i < 8
            invariant
                i <= 8,
                n == count_upto(self.bits as int, i as nat),
                n <= i,
            decreases 8 - i,
        {
            let p = EvidenceSet::pow_of(i);
            if (self.bits / p) % 2 == 1 {
                n = n + 1;
            }
            i = i + 1;
        }
        n
    }

    /// Returns the members of the set in declaration order.
    pub fn to_vec(&self) -> (r: Vec<Evidence>)
        ensures
            r@.to_set() == self@,
            r@.no_duplicates(),
            forall|a: int, b: int| 0 <= a < b < r@.len() ==> r@[a].idx() < r@[b].idx(),
    {
        let mut r: Vec<Evidence> = Vec::new();
        let mut i: u8 = 0;
        while i < 8
            invariant
                i <= 8,
                forall|a: int, b: int| 0 <= a < b < r@.len() ==> r@[a].idx() < r@[b].idx(),
                forall|a: int| 0 <= a < r@.len() ==> #[trigger] r@[a].idx() < i,
                forall|e: Evidence| #[trigger]
                    r@.contains(e) <==> (e.idx() < i && self@.contains(e)),
            decreases 8 - i,
        {
            let e = Evidence::from_index(i);
            if self.contains(&e) {
                let ghost old_r = r@;
                r.push(e);
                assert forall|x: Evidence| #[trigger]
                    r@.contains(x) <==> (x.idx() < i + 1 && self@.contains(x)) by {
                    if x.idx() == i as int {
                        assert(x == e);
                        assert(r@[r@.len() - 1] == e);
                    }
                    if r@.contains(x) && x != e {
                        let k = choose|k: int| 0 <= k < r@.len() && r@[k] == x;
                        assert(old_r[k] == x);
                    }
                    if old_r.contains(x) {
                        let k = choose|k: int| 0 <= k < old_r.len() && old_r[k] == x;
                        assert(r@[k] == x);
                    }
                }
            } else {
                assert forall|x: Evidence| #[trigger]
                    r@.contains(x) <==> (x.idx() < i + 1 && self@.contains(x)) by {
                    if x.idx() == i as int {
                        assert(x == e);
                    }
                }
            }
            i = i + 1;
        }
        assert(r@.to_set() =~= self@);
        r
    }
}

/// The ghost types, in declaration order.
#[derive(Debug, Clone, Copy, PartialEq, Eq, Hash, Structural)]
pub enum GhostType {
    BeanSidhe,
    Dullahan,
    Leprechaun,
    Barghest,
    WillOWisp,
    Widow,
    HobsTally,
    Ghoul,
    Afrit,
    Domovoi,
    Ghostlight,
    Kappa,
    Tengu,
    LaLlorona,
    Curupira,
    Dybbuk,
    Phooka,
    Wisp,
    GrayMan,
    LadyInWhite,
    Maresca,
    Gashadokuro,
    Jorogumo,
    Namahage,
    Tsuchinoko,
    Obayifo,
    Brume,
    Bugbear,
    Boggart,
    GreyLady,
    OldNan,
    BrownLady,
    Morag,
    Fionnuala,
    Ailill,
    Cairbre,
    Oonagh,
    Mider,
    Orla,
    Finvarra,
    Caoilte,
    Ceara,
    Muirgheas,
    Domovoy,
}

impl GhostType {
    /// Position of the ghost type in declaration order.
    pub open spec fn idx(self) -> int {
        match self {
            GhostType::BeanSidhe => 0,
            GhostType::Dullahan => 1,
            GhostType::Leprechaun => 2,
            GhostType::Barghest => 3,
            GhostType::WillOWisp => 4,
            GhostType::Widow => 5,
            GhostType::HobsTally => 6,
            GhostType::Ghoul => 7,
            GhostType::Afrit => 8,
            GhostType::Domovoi => 9,
            GhostType::Ghostlight => 10,
            GhostType::Kappa => 11,
            GhostType::Tengu => 12,
            GhostType::LaLlorona => 13,
            GhostType::Curupira => 14,
            GhostType::Dybbuk => 15,
            GhostType::Phooka => 16,
            GhostType::Wisp => 17,
            GhostType::GrayMan => 18,
            GhostType::LadyInWhite => 19,
            GhostType::Maresca => 20,
            GhostType::Gashadokuro => 21,
            GhostType::Jorogumo => 22,
            GhostType::Namahage => 23,
            GhostType::Tsuchinoko => 24,
            GhostType::Obayifo => 25,
            GhostType::Brume => 26,
            GhostType::Bugbear => 27,
            GhostType::Boggart => 28,
            GhostType::GreyLady => 29,
            GhostType::OldNan => 30,
            GhostType::BrownLady => 31,
            GhostType::Morag => 32,
            GhostType::Fionnuala => 33,
            GhostType::Ailill => 34,
            GhostType::Cairbre => 35,
            GhostType::Oonagh => 36,
            GhostType::Mider => 37,
            GhostType::Orla => 38,
            GhostType::Finvarra => 39,
            GhostType::Caoilte => 40,
            GhostType::Ceara => 41,
            GhostType::Muirgheas => 42,
            GhostType::Domovoy => 43,
        }
    }

    /// The ghost type at position `i` in declaration order (the last one for
    /// positions past the end).
    pub open spec fn from_idx(i: int) -> GhostType {
        if i == 0 {
            GhostType::BeanSidhe
        } else if i == 1 {
            GhostType::Dullahan
        } else if i == 2 {
            GhostType::Leprechaun
        } else if i == 3 {
            GhostType::Barghest
        } else if i == 4 {
            GhostType::WillOWisp
        } else if i == 5 {
            GhostType::Widow
        } else if i == 6 {
            GhostType::HobsTally
        } else if i == 7 {
            GhostType::Ghoul
        } else if i == 8 {
            GhostType::Afrit
        } else if i == 9 {
            GhostType::Domovoi
        } else if i == 10 {
            GhostType::Ghostlight
        } else if i == 11 {
            GhostType::Kappa
        } else if i == 12 {
            GhostType::Tengu
        } else if i == 13 {
            GhostType::LaLlorona
        } else if i == 14 {
            GhostType::Curupira
        } else if i == 15 {
            GhostType::Dybbuk
        } else if i == 16 {
            GhostType::Phooka
        } else if i == 17 {
            GhostType::Wisp
        } else if i == 18 {
            GhostType::GrayMan
        } else if i == 19 {
            GhostType::LadyInWhite
        } else if i == 20 {
            GhostType::Maresca
        } else if i == 21 {
            GhostType::Gashadokuro
        } else if i == 22 {
            GhostType::Jorogumo
        } else if i == 23 {
            GhostType::Namahage
        } else if i == 24 {
            GhostType::Tsuchinoko
        } else if i == 25 {
            GhostType::Obayifo
        } else if i == 26 {
            GhostType::Brume
        } else if i == 27 {
            GhostType::Bugbear
        } else if i == 28 {
            GhostType::Boggart
        } else if i == 29 {
            GhostType::GreyLady
        } else if i == 30 {
            GhostType::OldNan
        } else if i == 31 {
            GhostType::BrownLady
        } else if i == 32 {
            GhostType::Morag
        } else if i == 33 {
            GhostType::Fionnuala
        } else if i == 34 {
            GhostType::Ailill
        } else if i == 35 {
            GhostType::Cairbre
        } else if i == 36 {
            GhostType::Oonagh
        } else if i == 37 {
            GhostType::Mider
        } else if i == 38 {
            GhostType::Orla
        } else if i == 39 {
            GhostType::Finvarra
        } else if i == 40 {
            GhostType::Caoilte
        } else if i == 41 {
            GhostType::Ceara
        } else if i == 42 {
            GhostType::Muirgheas
        } else {
            GhostType::Domovoy
        }
    }

    /// All ghost types in declaration order.
    pub open spec fn all_seq() -> Seq<GhostType> {
        seq![
            GhostType::BeanSidhe,
            GhostType::Dullahan,
            GhostType::Leprechaun,
            GhostType::Barghest,
            GhostType::WillOWisp,
            GhostType::Widow,
            GhostType::HobsTally,
            GhostType::Ghoul,
            GhostType::Afrit,
            GhostType::Domovoi,
            GhostType::Ghostlight,
            GhostType::Kappa,
            GhostType::Tengu,
            GhostType::LaLlorona,
            GhostType::Curupira,
            GhostType::Dybbuk,
            GhostType::Phooka,
            GhostType::Wisp,
            GhostType::GrayMan,
            GhostType::LadyInWhite,
            GhostType::Maresca,
            GhostType::Gashadokuro,
            GhostType::Jorogumo,
            GhostType::Namahage,
            GhostType::Tsuchinoko,
            GhostType::Obayifo,
            GhostType::Brume,
            GhostType::Bugbear,
            GhostType::Boggart,
            GhostType::GreyLady,
            GhostType::OldNan,
            GhostType::BrownLady,
            GhostType::Morag,
            GhostType::Fionnuala,
            GhostType::Ailill,
            GhostType::Cairbre,
            GhostType::Oonagh,
            GhostType::Mider,
            GhostType::Orla,
            GhostType::Finvarra,
            GhostType::Caoilte,
            GhostType::Ceara,
            GhostType::Muirgheas,
            GhostType::Domovoy,
        ]
    }

    /// Returns every ghost type, in declaration order.
    pub fn all() -> (r: Vec<GhostType>)
        ensures
            r@ == Self::all_seq(),
    {
        let r = vec![
            GhostType::BeanSidhe,
            GhostType::Dullahan,
            GhostType::Leprechaun,
            GhostType::Barghest,
            GhostType::WillOWisp,
            GhostType::Widow,
            GhostType::HobsTally,
            GhostType::Ghoul,
            GhostType::Afrit,
            GhostType::Domovoi,
            GhostType::Ghostlight,
            GhostType::Kappa,
            GhostType::Tengu,
            GhostType::LaLlorona,
            GhostType::Curupira,
            GhostType::Dybbuk,
            GhostType::Phooka,
            GhostType::Wisp,
            GhostType::GrayMan,
            GhostType::LadyInWhite,
            GhostType::Maresca,
            GhostType::Gashadokuro,
            GhostType::Jorogumo,
            GhostType::Namahage,
            GhostType::Tsuchinoko,
            GhostType::Obayifo,
            GhostType::Brume,
            GhostType::Bugbear,
            GhostType::Boggart,
            GhostType::GreyLady,
            GhostType::OldNan,
            GhostType::BrownLady,
            GhostType::Morag,
            GhostType::Fionnuala,
            GhostType::Ailill,
            GhostType::Cairbre,
            GhostType::Oonagh,
            GhostType::Mider,
            GhostType::Orla,
            GhostType::Finvarra,
            GhostType::Caoilte,
            GhostType::Ceara,
            GhostType::Muirgheas,
            GhostType::Domovoy,
        ];
        assert(r@ =~= Self::all_seq());
        r
    }

    /// The display name of the ghost type.
    pub open spec fn name_of(self) -> Seq<char> {
        match self {
            GhostType::BeanSidhe => "Bean Sidhe"@,
            GhostType::Dullahan => "Dullahan"@,
            GhostType::Leprechaun => "Leprechaun"@,
            GhostType::Barghest => "Barghest"@,
            GhostType::WillOWisp => "Will O'Wisp"@,
            GhostType::Widow => "Widow"@,
            GhostType::HobsTally => "Hobs Tally"@,
            GhostType::Ghoul => "Ghoul"@,
            GhostType::Afrit => "Afrit"@,
            GhostType::Domovoi => "Domovoi"@,
            GhostType::Ghostlight => "Ghostlight"@,
            GhostType::Kappa => "Kappa"@,
            GhostType::Tengu => "Tengu"@,
            GhostType::LaLlorona => "La Llorona"@,
            GhostType::Curupira => "Curupira"@,
            GhostType::Dybbuk => "Dybbuk"@,
            GhostType::Phooka => "Phooka"@,
            GhostType::Wisp => "Wisp"@,
            GhostType::GrayMan => "Gray Man"@,
            GhostType::LadyInWhite => "Lady in White"@,
            GhostType::Maresca => "Maresca"@,
            GhostType::Gashadokuro => "Gashadokuro"@,
            GhostType::Jorogumo => "Jorōgumo"@,
            GhostType::Namahage => "Namahage"@,
            GhostType::Tsuchinoko => "Tsuchinoko"@,
            GhostType::Obayifo => "Obayifo"@,
            GhostType::Brume => "Brume"@,
            GhostType::Bugbear => "Bugbear"@,
            GhostType::Boggart => "Boggart"@,
            GhostType::GreyLady => "Grey Lady"@,
            GhostType::OldNan => "Old Nan"@,
            GhostType::BrownLady => "Brown Lady"@,
            GhostType::Morag => "Morag"@,
            GhostType::Fionnuala => "Fionnuala"@,
            GhostType::Ailill => "Ailill"@,
            GhostType::Cairbre => "Cairbre"@,
            GhostType::Oonagh => "Oonagh"@,
            GhostType::Mider => "Mider"@,
            GhostType::Orla => "Orla"@,
            GhostType::Finvarra => "Finvarra"@,
            GhostType::Caoilte => "Caoilte"@,
            GhostType::Ceara => "Ceara"@,
            GhostType::Muirgheas => "Muirgheas"@,
            GhostType::Domovoy => "Domovoy"@,
        }
    }

    /// Returns the display name of the ghost type.
    pub fn name(&self) -> (r: &'static str)
        ensures
            r@ == self.name_of(),
    {
        match self {
            GhostType::BeanSidhe => "Bean Sidhe",
            GhostType::Dullahan => "Dullahan",
            GhostType::Leprechaun => "Leprechaun",
            GhostType::Barghest => "Barghest",
            GhostType::WillOWisp => "Will O'Wisp",
            GhostType::Widow => "Widow",
            GhostType::HobsTally => "Hobs Tally",
            GhostType::Ghoul => "Ghoul",
            GhostType::Afrit => "Afrit",
            GhostType::Domovoi => "Domovoi",
            GhostType::Ghostlight => "Ghostlight",
            GhostType::Kappa => "Kappa",
            GhostType::Tengu => "Tengu",
            GhostType::LaLlorona => "La Llorona",
            GhostType::Curupira => "Curupira",
            GhostType::Dybbuk => "Dybbuk",
            GhostType::Phooka => "Phooka",
            GhostType::Wisp => "Wisp",
            GhostType::GrayMan => "Gray Man",
            GhostType::LadyInWhite => "Lady in White",
            GhostType::Maresca => "Maresca",
            GhostType::Gashadokuro => "Gashadokuro",
            GhostType::Jorogumo => "Jorōgumo",
            GhostType::Namahage => "Namahage",
            GhostType::Tsuchinoko => "Tsuchinoko",
            GhostType::Obayifo => "Obayifo",
            GhostType::Brume => "Brume",
            GhostType::Bugbear => "Bugbear",
            GhostType::Boggart => "Boggart",
            GhostType::GreyLady => "Grey Lady",
            GhostType::OldNan => "Old Nan",
            GhostType::BrownLady => "Brown Lady",
            GhostType::Morag => "Morag",
            GhostType::Fionnuala => "Fionnuala",
            GhostType::Ailill => "Ailill",
            GhostType::Cairbre => "Cairbre",
            GhostType::Oonagh => "Oonagh",
            GhostType::Mider => "Mider",
            GhostType::Orla => "Orla",
            GhostType::Finvarra => "Finvarra",
            GhostType::Caoilte => "Caoilte",
            GhostType::Ceara => "Ceara",
            GhostType::Muirgheas => "Muirgheas",
            GhostType::Domovoy => "Domovoy",
        }
    }

    /// The evidence bitmask of the ghost type: bit `i` is set when the ghost
    /// leaves the evidence of index `i`.
    pub open spec fn evidence_bits(self) -> u8 {
        match self {
            GhostType::BeanSidhe => 0b00011111u8,
            GhostType::Dullahan => 0b01101101u8,
            GhostType::Leprechaun => 0b00110111u8,
            GhostType::Barghest => 0b00111011u8,
            GhostType::WillOWisp => 0b00111101u8,
            GhostType::Widow => 0b00111110u8,
            GhostType::HobsTally => 0b01001111u8,
            GhostType::Ghoul => 0b01010111u8,
            GhostType::Afrit => 0b01011011u8,
            GhostType::Domovoi => 0b01011101u8,
            GhostType::Ghostlight => 0b01011110u8,
            GhostType::Kappa => 0b11100101u8,
            GhostType::Tengu => 0b01101011u8,
            GhostType::LaLlorona => 0b10111100u8,
            GhostType::Curupira => 0b01101110u8,
            GhostType::Dybbuk => 0b01110011u8,
            GhostType::Phooka => 0b01110101u8,
            GhostType::Wisp => 0b01110110u8,
            GhostType::GrayMan => 0b01111001u8,
            GhostType::LadyInWhite => 0b11110001u8,
            GhostType::Maresca => 0b10001111u8,
            GhostType::Gashadokuro => 0b10010111u8,
            GhostType::Jorogumo => 0b10011011u8,
            GhostType::Namahage => 0b10011101u8,
            GhostType::Tsuchinoko => 0b10011110u8,
            GhostType::Obayifo => 0b10100111u8,
            GhostType::Brume => 0b10101110u8,
            GhostType::Bugbear => 0b10101101u8,
            GhostType::Boggart => 0b10110011u8,
            GhostType::GreyLady => 0b10110101u8,
            GhostType::OldNan => 0b10110110u8,
            GhostType::BrownLady => 0b11111000u8,
            GhostType::Morag => 0b10111010u8,
            GhostType::Fionnuala => 0b11000111u8,
            GhostType::Ailill => 0b11001101u8,
            GhostType::Cairbre => 0b11010011u8,
            GhostType::Oonagh => 0b11010110u8,
            GhostType::Mider => 0b11011010u8,
            GhostType::Orla => 0b11100011u8,
            GhostType::Finvarra => 0b11100110u8,
            GhostType::Caoilte => 0b11101010u8,
            GhostType::Ceara => 0b11101100u8,
            GhostType::Muirgheas => 0b11110010u8,
            GhostType::Domovoy => 0b11110100u8,
        }
    }

    /// The evidences that the ghost type leaves.
    pub open spec fn evidence_set(self) -> Set<Evidence> {
        EvidenceSet { bits: self.evidence_bits() }@
    }

    /// Returns the evidences that the ghost type leaves.
    pub fn evidences(&self) -> (r: EvidenceSet)
        ensures
            r.bits == self.evidence_bits(),
            r@ == self.evidence_set(),
    {
        match self {
            GhostType::BeanSidhe => Evidence::from_bits(0b00011111),
            GhostType::Dullahan => Evidence::from_bits(0b01101101),
            GhostType::Leprechaun => Evidence::from_bits(0b00110111),
            GhostType::Barghest => Evidence::from_bits(0b00111011),
            GhostType::WillOWisp => Evidence::from_bits(0b00111101),
            GhostType::Widow => Evidence::from_bits(0b00111110),
            GhostType::HobsTally => Evidence::from_bits(0b01001111),
            GhostType::Ghoul => Evidence::from_bits(0b01010111),
            GhostType::Afrit => Evidence::from_bits(0b01011011),
            GhostType::Domovoi => Evidence::from_bits(0b01011101),
            GhostType::Ghostlight => Evidence::from_bits(0b01011110),
            GhostType::Kappa => Evidence::from_bits(0b11100101),
            GhostType::Tengu => Evidence::from_bits(0b01101011),
            GhostType::LaLlorona => Evidence::from_bits(0b10111100),
            GhostType::Curupira => Evidence::from_bits(0b01101110),
            GhostType::Dybbuk => Evidence::from_bits(0b01110011),
            GhostType::Phooka => Evidence::from_bits(0b01110101),
            GhostType::Wisp => Evidence::from_bits(0b01110110),
            GhostType::GrayMan => Evidence::from_bits(0b01111001),
            GhostType::LadyInWhite => Evidence::from_bits(0b11110001),
            GhostType::Maresca => Evidence::from_bits(0b10001111),
            GhostType::Gashadokuro => Evidence::from_bits(0b10010111),
            GhostType::Jorogumo => Evidence::from_bits(0b10011011),
            GhostType::Namahage => Evidence::from_bits(0b10011101),
            GhostType::Tsuchinoko => Evidence::from_bits(0b10011110),
            GhostType::Obayifo => Evidence::from_bits(0b10100111),
            GhostType::Brume => Evidence::from_bits(0b10101110),
            GhostType::Bugbear => Evidence::from_bits(0b10101101),
            GhostType::Boggart => Evidence::from_bits(0b10110011),
            GhostType::GreyLady => Evidence::from_bits(0b10110101),
            GhostType::OldNan => Evidence::from_bits(0b10110110),
            GhostType::BrownLady => Evidence::from_bits(0b11111000),
            GhostType::Morag => Evidence::from_bits(0b10111010),
            GhostType::Fionnuala => Evidence::from_bits(0b11000111),
            GhostType::Ailill => Evidence::from_bits(0b11001101),
            GhostType::Cairbre => Evidence::from_bits(0b11010011),
            GhostType::Oonagh => Evidence::from_bits(0b11010110),
            GhostType::Mider => Evidence::from_bits(0b11011010),
            GhostType::Orla => Evidence::from_bits(0b11100011),
            GhostType::Finvarra => Evidence::from_bits(0b11100110),
            GhostType::Caoilte => Evidence::from_bits(0b11101010),
            GhostType::Ceara => Evidence::from_bits(0b11101100),
            GhostType::Muirgheas => Evidence::from_bits(0b11110010),
            GhostType::Domovoy => Evidence::from_bits(0b11110100),
        }
    }
}

/// The ghost type whose evidence bitmask is `bits`, if any.
pub open spec fn ghost_with_bits(bits: u8) -> Option<GhostType> {
    if bits == 0b00011111u8 {
        Some(GhostType::BeanSidhe)
    } else if bits == 0b01101101u8 {
        Some(GhostType::Dullahan)
    } else if bits == 0b00110111u8 {
        Some(GhostType::Leprechaun)
    } else if bits == 0b00111011u8 {
        Some(GhostType::Barghest)
    } else if bits == 0b00111101u8 {
        Some(GhostType::WillOWisp)
    } else if bits == 0b00111110u8 {
        Some(GhostType::Widow)
    } else if bits == 0b01001111u8 {
        Some(GhostType::HobsTally)
    } else if bits == 0b01010111u8 {
        Some(GhostType::Ghoul)
    } else if bits == 0b01011011u8 {
        Some(GhostType::Afrit)
    } else if bits == 0b01011101u8 {
        Some(GhostType::Domovoi)
    } else if bits == 0b01011110u8 {
        Some(GhostType::Ghostlight)
    } else if bits == 0b11100101u8 {
        Some(GhostType::Kappa)
    } else if bits == 0b01101011u8 {
        Some(GhostType::Tengu)
    } else if bits == 0b10111100u8 {
        Some(GhostType::LaLlorona)
    } else if bits == 0b01101110u8 {
        Some(GhostType::Curupira)
    } else if bits == 0b01110011u8 {
        Some(GhostType::Dybbuk)
    } else if bits == 0b01110101u8 {
        Some(GhostType::Phooka)
    } else if bits == 0b01110110u8 {
        Some(GhostType::Wisp)
    } else if bits == 0b01111001u8 {
        Some(GhostType::GrayMan)
    } else if bits == 0b11110001u8 {
        Some(GhostType::LadyInWhite)
    } else if bits == 0b10001111u8 {
        Some(GhostType::Maresca)
    } else if bits == 0b10010111u8 {
        Some(GhostType::Gashadokuro)
    } else if bits == 0b10011011u8 {
        Some(GhostType::Jorogumo)
    } else if bits == 0b10011101u8 {
        Some(GhostType::Namahage)
    } else if bits == 0b10011110u8 {
        Some(GhostType::Tsuchinoko)
    } else if bits == 0b10100111u8 {
        Some(GhostType::Obayifo)
    } else if bits == 0b10101110u8 {
        Some(GhostType::Brume)
    } else if bits == 0b10101101u8 {
        Some(GhostType::Bugbear)
    } else if bits == 0b10110011u8 {
        Some(GhostType::Boggart)
    } else if bits == 0b10110101u8 {
        Some(GhostType::GreyLady)
    } else if bits == 0b10110110u8 {
        Some(GhostType::OldNan)
    } else if bits == 0b11111000u8 {
        Some(GhostType::BrownLady)
    } else if bits == 0b10111010u8 {
        Some(GhostType::Morag)
    } else if bits == 0b11000111u8 {
        Some(GhostType::Fionnuala)
    } else if bits == 0b11001101u8 {
        Some(GhostType::Ailill)
    } else if bits == 0b11010011u8 {
        Some(GhostType::Cairbre)
    } else if bits == 0b11010110u8 {
        Some(GhostType::Oonagh)
    } else if bits == 0b11011010u8 {
        Some(GhostType::Mider)
    } else if bits == 0b11100011u8 {
        Some(GhostType::Orla)
    } else if bits == 0b11100110u8 {
        Some(GhostType::Finvarra)
    } else if bits == 0b11101010u8 {
        Some(GhostType::Caoilte)
    } else if bits == 0b11101100u8 {
        Some(GhostType::Ceara)
    } else if bits == 0b11110010u8 {
        Some(GhostType::Muirgheas)
    } else if bits == 0b11110100u8 {
        Some(GhostType::Domovoy)
    } else {
        None
    }
}

/// Each ghost type is identified by its evidence bitmask.
proof fn lemma_bits_identify_ghost(g: GhostType)
    ensures
        ghost_with_bits(g.evidence_bits()) == Some(g),
{
}

/// The ghost type whose display name has this length, this third
/// character and this last character; no two display names agree on all
/// three.
spec fn ghost_of_name_key(len: int, third: char, last: char) -> GhostType {
    if len == 10 && third == 'a' && last == 'e' {
        GhostType::BeanSidhe
    } else if len == 8 && third == 'l' && last == 'n' {
        GhostType::Dullahan
    } else if len == 10 && third == 'p' && last == 'n' {
        GhostType::Leprechaun
    } else if len == 8 && third == 'r' && last == 't' {
        GhostType::Barghest
    } else if len == 11 && third == 'l' && last == 'p' {
        GhostType::WillOWisp
    } else if len == 5 && third == 'd' && last == 'w' {
        GhostType::Widow
    } else if len == 10 && third == 'b' && last == 'y' {
        GhostType::HobsTally
    } else if len == 5 && third == 'o' && last == 'l' {
        GhostType::Ghoul
    } else if len == 5 && third == 'r' && last == 't' {
        GhostType::Afrit
    } else if len == 7 && third == 'm' && last == 'i' {
        GhostType::Domovoi
    } else if len == 10 && third == 'o' && last == 't' {
        GhostType::Ghostlight
    } else if len == 5 && third == 'p' && last == 'a' {
        GhostType::Kappa
    } else if len == 5 && third == 'n' && last == 'u' {
        GhostType::Tengu
    } else if len == 10 && third == ' ' && last == 'a' {
        GhostType::LaLlorona
    } else if len == 8 && third == 'r' && last == 'a' {
        GhostType::Curupira
    } else if len == 6 && third == 'b' && last == 'k' {
        GhostType::Dybbuk
    } else if len == 6 && third == 'o' && last == 'a' {
        GhostType::Phooka
    } else if len == 4 && third == 's' && last == 'p' {
        GhostType::Wisp
    } else if len == 8 && third == 'a' && last == 'n' {
        GhostType::GrayMan
    } else if len == 13 && third == 'd' && last == 'e' {
        GhostType::LadyInWhite
    } else if len == 7 && third == 'r' && last == 'a' {
        GhostType::Maresca
    } else if len == 11 && third == 's' && last == 'o' {
        GhostType::Gashadokuro
    } else if len == 8 && third == 'r' && last == 'o' {
        GhostType::Jorogumo
    } else if len == 8 && third == 'm' && last == 'e' {
        GhostType::Namahage
    } else if len == 10 && third == 'u' && last == 'o' {
        GhostType::Tsuchinoko
    } else if len == 7 && third == 'a' && last == 'o' {
        GhostType::Obayifo
    } else if len == 5 && third == 'u' && last == 'e' {
        GhostType::Brume
    } else if len == 7 && third == 'g' && last == 'r' {
        GhostType::Bugbear
    } else if len == 7 && third == 'g' && last == 't' {
        GhostType::Boggart
    } else if len == 9 && third == 'e' && last == 'y' {
        GhostType::GreyLady
    } else if len == 7 && third == 'd' && last == 'n' {
        GhostType::OldNan
    } else if len == 10 && third == 'o' && last == 'y' {
        GhostType::BrownLady
    } else if len == 5 && third == 'r' && last == 'g' {
        GhostType::Morag
    } else if len == 9 && third == 'o' && last == 'a' {
        GhostType::Fionnuala
    } else if len == 6 && third == 'l' && last == 'l' {
        GhostType::Ailill
    } else if len == 7 && third == 'i' && last == 'e' {
        GhostType::Cairbre
    } else if len == 6 && third == 'n' && last == 'h' {
        GhostType::Oonagh
    } else if len == 5 && third == 'd' && last == 'r' {
        GhostType::Mider
    } else if len == 4 && third == 'l' && last == 'a' {
        GhostType::Orla
    } else if len == 8 && third == 'n' && last == 'a' {
        GhostType::Finvarra
    } else if len == 7 && third == 'o' && last == 'e' {
        GhostType::Caoilte
    } else if len == 5 && third == 'a' && last == 'a' {
        GhostType::Ceara
    } else if len == 9 && third == 'i' && last == 's' {
        GhostType::Muirgheas
    } else {
        GhostType::Domovoy
    }
}

proof fn lemma_name_key(g: GhostType)
    ensures
        g.name_of().len() >= 3,
        ghost_of_name_key(g.name_of().len() as int, g.name_of()[2], g.name_of().last()) == g,
{
    match g {
        GhostType::BeanSidhe => {
            reveal_strlit("Bean Sidhe");
        },
        GhostType::Dullahan => {
            reveal_strlit("Dullahan");
        },
        GhostType::Leprechaun => {
            reveal_strlit("Leprechaun");
        },
        GhostType::Barghest => {
            reveal_strlit("Barghest");
        },
        GhostType::WillOWisp => {
            reveal_strlit("Will O'Wisp");
        },
        GhostType::Widow => {
            reveal_strlit("Widow");
        },
        GhostType::HobsTally => {
            reveal_strlit("Hobs Tally");
        },
        GhostType::Ghoul => {
            reveal_strlit("Ghoul");
        },
        GhostType::Afrit => {
            reveal_strlit("Afrit");
        },
        GhostType::Domovoi => {
            reveal_strlit("Domovoi");
        },
        GhostType::Ghostlight => {
            reveal_strlit("Ghostlight");
        },
        GhostType::Kappa => {
            reveal_strlit("Kappa");
        },
        GhostType::Tengu => {
            reveal_strlit("Tengu");
        },
        GhostType::LaLlorona => {
            reveal_strlit("La Llorona");
        },
        GhostType::Curupira => {
            reveal_strlit("Curupira");
        },
        GhostType::Dybbuk => {
            reveal_strlit("Dybbuk");
        },
        GhostType::Phooka => {
            reveal_strlit("Phooka");
        },
        GhostType::Wisp => {
            reveal_strlit("Wisp");
        },
        GhostType::GrayMan => {
            reveal_strlit("Gray Man");
        },
        GhostType::LadyInWhite => {
            reveal_strlit("Lady in White");
        },
        GhostType::Maresca => {
            reveal_strlit("Maresca");
        },
        GhostType::Gashadokuro => {
            reveal_strlit("Gashadokuro");
        },
        GhostType::Jorogumo => {
            reveal_strlit("Jorōgumo");
        },
        GhostType::Namahage => {
            reveal_strlit("Namahage");
        },
        GhostType::Tsuchinoko => {
            reveal_strlit("Tsuchinoko");
        },
        GhostType::Obayifo => {
            reveal_strlit("Obayifo");
        },
        GhostType::Brume => {
            reveal_strlit("Brume");
        },
        GhostType::Bugbear => {
            reveal_strlit("Bugbear");
        },
        GhostType::Boggart => {
            reveal_strlit("Boggart");
        },
        GhostType::GreyLady => {
            reveal_strlit("Grey Lady");
        },
        GhostType::OldNan => {
            reveal_strlit("Old Nan");
        },
        GhostType::BrownLady => {
            reveal_strlit("Brown Lady");
        },
        GhostType::Morag => {
            reveal_strlit("Morag");
        },
        GhostType::Fionnuala => {
            reveal_strlit("Fionnuala");
        },
        GhostType::Ailill => {
            reveal_strlit("Ailill");
        },
        GhostType::Cairbre => {
            reveal_strlit("Cairbre");
        },
        GhostType::Oonagh => {
            reveal_strlit("Oonagh");
        },
        GhostType::Mider => {
            reveal_strlit("Mider");
        },
        GhostType::Orla => {
            reveal_strlit("Orla");
        },
        GhostType::Finvarra => {
            reveal_strlit("Finvarra");
        },
        GhostType::Caoilte => {
            reveal_strlit("Caoilte");
        },
        GhostType::Ceara => {
            reveal_strlit("Ceara");
        },
        GhostType::Muirgheas => {
            reveal_strlit("Muirgheas");
        },
        GhostType::Domovoy => {
            reveal_strlit("Domovoy");
        },
    }
}

/// The display names of the ghost types are pairwise different and none
/// is empty.
pub proof fn lemma_ghost_names_distinct(g1: GhostType, g2: GhostType)
    ensures
        g1.name_of().len() > 0,
        g1 != g2 ==> g1.name_of() != g2.name_of(),
{
    lemma_name_key(g1);
    lemma_name_key(g2);
}

/// Every ghost type leaves exactly five evidences.
pub proof fn lemma_five_evidences_per_ghost(g: GhostType)
    ensures
        g.evidence_set().finite(),
        g.evidence_set().len() == 5,
{
    lemma_evidence_set_len(EvidenceSet { bits: g.evidence_bits() });
    reveal_with_fuel(count_upto, 9);
}

/// No two ghost types leave the same set of evidences, so the evidences found
/// always single out one ghost type.
pub proof fn lemma_unique_evidence_sets(g1: GhostType, g2: GhostType)
    requires
        g1 != g2,
    ensures
        g1.evidence_set() != g2.evidence_set(),
{
    lemma_bits_identify_ghost(g1);
    lemma_bits_identify_ghost(g2);
    if g1.evidence_set() == g2.evidence_set() {
        let b1 = g1.evidence_bits();
        let b2 = g2.evidence_bits();
        assert forall|j: int| 0 <= j < 8 implies #[trigger] bit_of(b1 as int, j) == bit_of(
            b2 as int,
            j,
        ) by {
            let e = Evidence::from_idx(j);
            assert(e.idx() == j);
            assert(g1.evidence_set().contains(e) == g2.evidence_set().contains(e));
        }
        lemma_bits_determine_byte(b1, b2);
    }
}

/// Whether the ghost type `g` leaves the evidence `e`.
pub open spec fn ghost_leaves(g: GhostType, e: Evidence) -> bool {
    bit_of(g.evidence_bits() as int, e.idx())
}

/// `ghost_leaves` is membership in the ghost type's evidence set.
pub proof fn lemma_ghost_leaves(g: GhostType, e: Evidence)
    ensures
        ghost_leaves(g, e) == g.evidence_set().contains(e),
{
}

/// 1 when the ghost type `g` leaves the evidence `e`, 0 otherwise.
pub open spec fn leaves_count(g: GhostType, e: Evidence) -> nat {
    if ghost_leaves(g, e) {
        1
    } else {
        0
    }
}

/// Number of ghost types that leave the evidence `e`: the sum, over every
/// ghost type in declaration order, of whether it leaves `e`.
#[verifier::opaque]
pub open spec fn evidence_usage(e: Evidence) -> nat {
    leaves_count(GhostType::BeanSidhe, e) + leaves_count(GhostType::Dullahan, e)
        + leaves_count(GhostType::Leprechaun, e) + leaves_count(GhostType::Barghest, e)
        + leaves_count(GhostType::WillOWisp, e) + leaves_count(GhostType::Widow, e)
        + leaves_count(GhostType::HobsTally, e) + leaves_count(GhostType::Ghoul, e)
        + leaves_count(GhostType::Afrit, e) + leaves_count(GhostType::Domovoi, e)
        + leaves_count(GhostType::Ghostlight, e) + leaves_count(GhostType::Kappa, e)
        + leaves_count(GhostType::Tengu, e) + leaves_count(GhostType::LaLlorona, e)
        + leaves_count(GhostType::Curupira, e) + leaves_count(GhostType::Dybbuk, e)
        + leaves_count(GhostType::Phooka, e) + leaves_count(GhostType::Wisp, e)
        + leaves_count(GhostType::GrayMan, e) + leaves_count(GhostType::LadyInWhite, e)
        + leaves_count(GhostType::Maresca, e) + leaves_count(GhostType::Gashadokuro, e)
        + leaves_count(GhostType::Jorogumo, e) + leaves_count(GhostType::Namahage, e)
        + leaves_count(GhostType::Tsuchinoko, e) + leaves_count(GhostType::Obayifo, e)
        + leaves_count(GhostType::Brume, e) + leaves_count(GhostType::Bugbear, e)
        + leaves_count(GhostType::Boggart, e) + leaves_count(GhostType::GreyLady, e)
        + leaves_count(GhostType::OldNan, e) + leaves_count(GhostType::BrownLady, e)
        + leaves_count(GhostType::Morag, e) + leaves_count(GhostType::Fionnuala, e)
        + leaves_count(GhostType::Ailill, e) + leaves_count(GhostType::Cairbre, e)
        + leaves_count(GhostType::Oonagh, e) + leaves_count(GhostType::Mider, e)
        + leaves_count(GhostType::Orla, e) + leaves_count(GhostType::Finvarra, e)
        + leaves_count(GhostType::Caoilte, e) + leaves_count(GhostType::Ceara, e)
        + leaves_count(GhostType::Muirgheas, e) + leaves_count(GhostType::Domovoy, e)
}

/// Total number of (ghost type, evidence) pairs over the whole catalogue.
pub open spec fn total_evidence_usage() -> nat {
    evidence_usage(Evidence::FreezingTemp) + evidence_usage(Evidence::FloatingOrbs)
        + evidence_usage(Evidence::UVEctoplasm) + evidence_usage(Evidence::EMFLevel5)
        + evidence_usage(Evidence::EVPRecording) + evidence_usage(Evidence::SpiritBox)
        + evidence_usage(Evidence::RLPresence) + evidence_usage(Evidence::CPM500)
}

/// One when the evidence `e` is left by some ghost type, zero otherwise.
pub open spec fn used_indicator(e: Evidence) -> nat {
    if evidence_usage(e) > 0 {
        1
    } else {
        0
    }
}

/// How many evidences are left by at least one ghost type.
pub open spec fn used_evidence_count() -> nat {
    used_indicator(Evidence::FreezingTemp) + used_indicator(Evidence::FloatingOrbs)
        + used_indicator(Evidence::UVEctoplasm) + used_indicator(Evidence::EMFLevel5)
        + used_indicator(Evidence::EVPRecording) + used_indicator(Evidence::SpiritBox)
        + used_indicator(Evidence::RLPresence) + used_indicator(Evidence::CPM500)
}

proof fn lemma_usage_freezingtemp()
    ensures
        evidence_usage(Evidence::FreezingTemp) == 27,
{
    reveal(evidence_usage);
    assert(leaves_count(GhostType::BeanSidhe, Evidence::FreezingTemp) == 1);
    assert(leaves_count(GhostType::Dullahan, Evidence::FreezingTemp) == 1);
    assert(leaves_count(GhostType::Leprechaun, Evidence::FreezingTemp) == 1);
    assert(leaves_count(GhostType::Barghest, Evidence::FreezingTemp) == 1);
    assert(leaves_count(GhostType::WillOWisp, Evidence::FreezingTemp) == 1);
    assert(leaves_count(GhostType::Widow, Evidence::FreezingTemp) == 0);
    assert(leaves_count(GhostType::HobsTally, Evidence::FreezingTemp) == 1);
    assert(leaves_count(GhostType::Ghoul, Evidence::FreezingTemp) == 1);
    assert(leaves_count(GhostType::Afrit, Evidence::FreezingTemp) == 1);
    assert(leaves_count(GhostType::Domovoi, Evidence::FreezingTemp) == 1);
    assert(leaves_count(GhostType::Ghostlight, Evidence::FreezingTemp) == 0);
    assert(leaves_count(GhostType::Kappa, Evidence::FreezingTemp) == 1);
    assert(leaves_count(GhostType::Tengu, Evidence::FreezingTemp) == 1);
    assert(leaves_count(GhostType::LaLlorona, Evidence::FreezingTemp) == 0);
    assert(leaves_count(GhostType::Curupira, Evidence::FreezingTemp) == 0);
    assert(leaves_count(GhostType::Dybbuk, Evidence::FreezingTemp) == 1);
    assert(leaves_count(GhostType::Phooka, Evidence::FreezingTemp) == 1);
    assert(leaves_count(GhostType::Wisp, Evidence::FreezingTemp) == 0);
    assert(leaves_count(GhostType::GrayMan, Evidence::FreezingTemp) == 1);
    assert(leaves_count(GhostType::LadyInWhite, Evidence::FreezingTemp) == 1);
    assert(leaves_count(GhostType::Maresca, Evidence::FreezingTemp) == 1);
    assert(leaves_count(GhostType::Gashadokuro, Evidence::FreezingTemp) == 1);
    assert(leaves_count(GhostType::Jorogumo, Evidence::FreezingTemp) == 1);
    assert(leaves_count(GhostType::Namahage, Evidence::FreezingTemp) == 1);
    assert(leaves_count(GhostType::Tsuchinoko, Evidence::FreezingTemp) == 0);
    assert(leaves_count(GhostType::Obayifo, Evidence::FreezingTemp) == 1);
    assert(leaves_count(GhostType::Brume, Evidence::FreezingTemp) == 0);
    assert(leaves_count(GhostType::Bugbear, Evidence::FreezingTemp) == 1);
    assert(leaves_count(GhostType::Boggart, Evidence::FreezingTemp) == 1);
    assert(leaves_count(GhostType::GreyLady, Evidence::FreezingTemp) == 1);
    assert(leaves_count(GhostType::OldNan, Evidence::FreezingTemp) == 0);
    assert(leaves_count(GhostType::BrownLady, Evidence::FreezingTemp) == 0);
    assert(leaves_count(GhostType::Morag, Evidence::FreezingTemp) == 0);
    assert(leaves_count(GhostType::Fionnuala, Evidence::FreezingTemp) == 1);
    assert(leaves_count(GhostType::Ailill, Evidence::FreezingTemp) == 1);
    assert(leaves_count(GhostType::Cairbre, Evidence::FreezingTemp) == 1);
    assert(leaves_count(GhostType::Oonagh, Evidence::FreezingTemp) == 0);
    assert(leaves_count(GhostType::Mider, Evidence::FreezingTemp) == 0);
    assert(leaves_count(GhostType::Orla, Evidence::FreezingTemp) == 1);
    assert(leaves_count(GhostType::Finvarra, Evidence::FreezingTemp) == 0);
    assert(leaves_count(GhostType::Caoilte, Evidence::FreezingTemp) == 0);
    assert(leaves_count(GhostType::Ceara, Evidence::FreezingTemp) == 0);
    assert(leaves_count(GhostType::Muirgheas, Evidence::FreezingTemp) == 0);
    assert(leaves_count(GhostType::Domovoy, Evidence::FreezingTemp) == 0);
}

proof fn lemma_usage_floatingorbs()
    ensures
        evidence_usage(Evidence::FloatingOrbs) == 29,
{
    reveal(evidence_usage);
    assert(leaves_count(GhostType::BeanSidhe, Evidence::FloatingOrbs) == 1);
    assert(leaves_count(GhostType::Dullahan, Evidence::FloatingOrbs) == 0);
    assert(leaves_count(GhostType::Leprechaun, Evidence::FloatingOrbs) == 1);
    assert(leaves_count(GhostType::Barghest, Evidence::FloatingOrbs) == 1);
    assert(leaves_count(GhostType::WillOWisp, Evidence::FloatingOrbs) == 0);
    assert(leaves_count(GhostType::Widow, Evidence::FloatingOrbs) == 1);
    assert(leaves_count(GhostType::HobsTally, Evidence::FloatingOrbs) == 1);
    assert(leaves_count(GhostType::Ghoul, Evidence::FloatingOrbs) == 1);
    assert(leaves_count(GhostType::Afrit, Evidence::FloatingOrbs) == 1);
    assert(leaves_count(GhostType::Domovoi, Evidence::FloatingOrbs) == 0);
    assert(leaves_count(GhostType::Ghostlight, Evidence::FloatingOrbs) == 1);
    assert(leaves_count(GhostType::Kappa, Evidence::FloatingOrbs) == 0);
    assert(leaves_count(GhostType::Tengu, Evidence::FloatingOrbs) == 1);
    assert(leaves_count(GhostType::LaLlorona, Evidence::FloatingOrbs) == 0);
    assert(leaves_count(GhostType::Curupira, Evidence::FloatingOrbs) == 1);
    assert(leaves_count(GhostType::Dybbuk, Evidence::FloatingOrbs) == 1);
    assert(leaves_count(GhostType::Phooka, Evidence::FloatingOrbs) == 0);
    assert(leaves_count(GhostType::Wisp, Evidence::FloatingOrbs) == 1);
    assert(leaves_count(GhostType::GrayMan, Evidence::FloatingOrbs) == 0);
    assert(leaves_count(GhostType::LadyInWhite, Evidence::FloatingOrbs) == 0);
    assert(leaves_count(GhostType::Maresca, Evidence::FloatingOrbs) == 1);
    assert(leaves_count(GhostType::Gashadokuro, Evidence::FloatingOrbs) == 1);
    assert(leaves_count(GhostType::Jorogumo, Evidence::FloatingOrbs) == 1);
    assert(leaves_count(GhostType::Namahage, Evidence::FloatingOrbs) == 0);
    assert(leaves_count(GhostType::Tsuchinoko, Evidence::FloatingOrbs) == 1);
    assert(leaves_count(GhostType::Obayifo, Evidence::FloatingOrbs) == 1);
    assert(leaves_count(GhostType::Brume, Evidence::FloatingOrbs) == 1);
    assert(leaves_count(GhostType::Bugbear, Evidence::FloatingOrbs) == 0);
    assert(leaves_count(GhostType::Boggart, Evidence::FloatingOrbs) == 1);
    assert(leaves_count(GhostType::GreyLady, Evidence::FloatingOrbs) == 0);
    assert(leaves_count(GhostType::OldNan, Evidence::FloatingOrbs) == 1);
    assert(leaves_count(GhostType::BrownLady, Evidence::FloatingOrbs) == 0);
    assert(leaves_count(GhostType::Morag, Evidence::FloatingOrbs) == 1);
    assert(leaves_count(GhostType::Fionnuala, Evidence::FloatingOrbs) == 1);
    assert(leaves_count(GhostType::Ailill, Evidence::FloatingOrbs) == 0);
    assert(leaves_count(GhostType::Cairbre, Evidence::FloatingOrbs) == 1);
    assert(leaves_count(GhostType::Oonagh, Evidence::FloatingOrbs) == 1);
    assert(leaves_count(GhostType::Mider, Evidence::FloatingOrbs) == 1);
    assert(leaves_count(GhostType::Orla, Evidence::FloatingOrbs) == 1);
    assert(leaves_count(GhostType::Finvarra, Evidence::FloatingOrbs) == 1);
    assert(leaves_count(GhostType::Caoilte, Evidence::FloatingOrbs) == 1);
    assert(leaves_count(GhostType::Ceara, Evidence::FloatingOrbs) == 0);
    assert(leaves_count(GhostType::Muirgheas, Evidence::FloatingOrbs) == 1);
    assert(leaves_count(GhostType::Domovoy, Evidence::FloatingOrbs) == 0);
}

proof fn lemma_usage_uvectoplasm()
    ensures
        evidence_usage(Evidence::UVEctoplasm) == 29,
{
    reveal(evidence_usage);
    assert(leaves_count(GhostType::BeanSidhe, Evidence::UVEctoplasm) == 1);
    assert(leaves_count(GhostType::Dullahan, Evidence::UVEctoplasm) == 1);
    assert(leaves_count(GhostType::Leprechaun, Evidence::UVEctoplasm) == 1);
    assert(leaves_count(GhostType::Barghest, Evidence::UVEctoplasm) == 0);
    assert(leaves_count(GhostType::WillOWisp, Evidence::UVEctoplasm) == 1);
    assert(leaves_count(GhostType::Widow, Evidence::UVEctoplasm) == 1);
    assert(leaves_count(GhostType::HobsTally, Evidence::UVEctoplasm) == 1);
    assert(leaves_count(GhostType::Ghoul, Evidence::UVEctoplasm) == 1);
    assert(leaves_count(GhostType::Afrit, Evidence::UVEctoplasm) == 0);
    assert(leaves_count(GhostType::Domovoi, Evidence::UVEctoplasm) == 1);
    assert(leaves_count(GhostType::Ghostlight, Evidence::UVEctoplasm) == 1);
    assert(leaves_count(GhostType::Kappa, Evidence::UVEctoplasm) == 1);
    assert(leaves_count(GhostType::Tengu, Evidence::UVEctoplasm) == 0);
    assert(leaves_count(GhostType::LaLlorona, Evidence::UVEctoplasm) == 1);
    assert(leaves_count(GhostType::Curupira, Evidence::UVEctoplasm) == 1);
    assert(leaves_count(GhostType::Dybbuk, Evidence::UVEctoplasm) == 0);
    assert(leaves_count(GhostType::Phooka, Evidence::UVEctoplasm) == 1);
    assert(leaves_count(GhostType::Wisp, Evidence::UVEctoplasm) == 1);
    assert(leaves_count(GhostType::GrayMan, Evidence::UVEctoplasm) == 0);
    assert(leaves_count(GhostType::LadyInWhite, Evidence::UVEctoplasm) == 0);
    assert(leaves_count(GhostType::Maresca, Evidence::UVEctoplasm) == 1);
    assert(leaves_count(GhostType::Gashadokuro, Evidence::UVEctoplasm) == 1);
    assert(leaves_count(GhostType::Jorogumo, Evidence::UVEctoplasm) == 0);
    assert(leaves_count(GhostType::Namahage, Evidence::UVEctoplasm) == 1);
    assert(leaves_count(GhostType::Tsuchinoko, Evidence::UVEctoplasm) == 1);
    assert(leaves_count(GhostType::Obayifo, Evidence::UVEctoplasm) == 1);
    assert(leaves_count(GhostType::Brume, Evidence::UVEctoplasm) == 1);
    assert(leaves_count(GhostType::Bugbear, Evidence::UVEctoplasm) == 1);
    assert(leaves_count(GhostType::Boggart, Evidence::UVEctoplasm) == 0);
    assert(leaves_count(GhostType::GreyLady, Evidence::UVEctoplasm) == 1);
    assert(leaves_count(GhostType::OldNan, Evidence::UVEctoplasm) == 1);
    assert(leaves_count(GhostType::BrownLady, Evidence::UVEctoplasm) == 0);
    assert(leaves_count(GhostType::Morag, Evidence::UVEctoplasm) == 0);
    assert(leaves_count(GhostType::Fionnuala, Evidence::UVEctoplasm) == 1);
    assert(leaves_count(GhostType::Ailill, Evidence::UVEctoplasm) == 1);
    assert(leaves_count(GhostType::Cairbre, Evidence::UVEctoplasm) == 0);
    assert(leaves_count(GhostType::Oonagh, Evidence::UVEctoplasm) == 1);
    assert(leaves_count(GhostType::Mider, Evidence::UVEctoplasm) == 0);
    assert(leaves_count(GhostType::Orla, Evidence::UVEctoplasm) == 0);
    assert(leaves_count(GhostType::Finvarra, Evidence::UVEctoplasm) == 1);
    assert(leaves_count(GhostType::Caoilte, Evidence::UVEctoplasm) == 0);
    assert(leaves_count(GhostType::Ceara, Evidence::UVEctoplasm) == 1);
    assert(leaves_count(GhostType::Muirgheas, Evidence::UVEctoplasm) == 0);
    assert(leaves_count(GhostType::Domovoy, Evidence::UVEctoplasm) == 1);
}

proof fn lemma_usage_emflevel5()
    ensures
        evidence_usage(Evidence::EMFLevel5) == 25,
{
    reveal(evidence_usage);
    assert(leaves_count(GhostType::BeanSidhe, Evidence::EMFLevel5) == 1);
    assert(leaves_count(GhostType::Dullahan, Evidence::EMFLevel5) == 1);
    assert(leaves_count(GhostType::Leprechaun, Evidence::EMFLevel5) == 0);
    assert(leaves_count(GhostType::Barghest, Evidence::EMFLevel5) == 1);
    assert(leaves_count(GhostType::WillOWisp, Evidence::EMFLevel5) == 1);
    assert(leaves_count(GhostType::Widow, Evidence::EMFLevel5) == 1);
    assert(leaves_count(GhostType::HobsTally, Evidence::EMFLevel5) == 1);
    assert(leaves_count(GhostType::Ghoul, Evidence::EMFLevel5) == 0);
    assert(leaves_count(GhostType::Afrit, Evidence::EMFLevel5) == 1);
    assert(leaves_count(GhostType::Domovoi, Evidence::EMFLevel5) == 1);
    assert(leaves_count(GhostType::Ghostlight, Evidence::EMFLevel5) == 1);
    assert(leaves_count(GhostType::Kappa, Evidence::EMFLevel5) == 0);
    assert(leaves_count(GhostType::Tengu, Evidence::EMFLevel5) == 1);
    assert(leaves_count(GhostType::LaLlorona, Evidence::EMFLevel5) == 1);
    assert(leaves_count(GhostType::Curupira, Evidence::EMFLevel5) == 1);
    assert(leaves_count(GhostType::Dybbuk, Evidence::EMFLevel5) == 0);
    assert(leaves_count(GhostType::Phooka, Evidence::EMFLevel5) == 0);
    assert(leaves_count(GhostType::Wisp, Evidence::EMFLevel5) == 0);
    assert(leaves_count(GhostType::GrayMan, Evidence::EMFLevel5) == 1);
    assert(leaves_count(GhostType::LadyInWhite, Evidence::EMFLevel5) == 0);
    assert(leaves_count(GhostType::Maresca, Evidence::EMFLevel5) == 1);
    assert(leaves_count(GhostType::Gashadokuro, Evidence::EMFLevel5) == 0);
    assert(leaves_count(GhostType::Jorogumo, Evidence::EMFLevel5) == 1);
    assert(leaves_count(GhostType::Namahage, Evidence::EMFLevel5) == 1);
    assert(leaves_count(GhostType::Tsuchinoko, Evidence::EMFLevel5) == 1);
    assert(leaves_count(GhostType::Obayifo, Evidence::EMFLevel5) == 0);
    assert(leaves_count(GhostType::Brume, Evidence::EMFLevel5) == 1);
    assert(leaves_count(GhostType::Bugbear, Evidence::EMFLevel5) == 1);
    assert(leaves_count(GhostType::Boggart, Evidence::EMFLevel5) == 0);
    assert(leaves_count(GhostType::GreyLady, Evidence::EMFLevel5) == 0);
    assert(leaves_count(GhostType::OldNan, Evidence::EMFLevel5) == 0);
    assert(leaves_count(GhostType::BrownLady, Evidence::EMFLevel5) == 1);
    assert(leaves_count(GhostType::Morag, Evidence::EMFLevel5) == 1);
    assert(leaves_count(GhostType::Fionnuala, Evidence::EMFLevel5) == 0);
    assert(leaves_count(GhostType::Ailill, Evidence::EMFLevel5) == 1);
    assert(leaves_count(GhostType::Cairbre, Evidence::EMFLevel5) == 0);
    assert(leaves_count(GhostType::Oonagh, Evidence::EMFLevel5) == 0);
    assert(leaves_count(GhostType::Mider, Evidence::EMFLevel5) == 1);
    assert(leaves_count(GhostType::Orla, Evidence::EMFLevel5) == 0);
    assert(leaves_count(GhostType::Finvarra, Evidence::EMFLevel5) == 0);
    assert(leaves_count(GhostType::Caoilte, Evidence::EMFLevel5) == 1);
    assert(leaves_count(GhostType::Ceara, Evidence::EMFLevel5) == 1);
    assert(leaves_count(GhostType::Muirgheas, Evidence::EMFLevel5) == 0);
    assert(leaves_count(GhostType::Domovoy, Evidence::EMFLevel5) == 0);
}

proof fn lemma_usage_evprecording()
    ensures
        evidence_usage(Evidence::EVPRecording) == 29,
{
    reveal(evidence_usage);
    assert(leaves_count(GhostType::BeanSidhe, Evidence::EVPRecording) == 1);
    assert(leaves_count(GhostType::Dullahan, Evidence::EVPRecording) == 0);
    assert(leaves_count(GhostType::Leprechaun, Evidence::EVPRecording) == 1);
    assert(leaves_count(GhostType::Barghest, Evidence::EVPRecording) == 1);
    assert(leaves_count(GhostType::WillOWisp, Evidence::EVPRecording) == 1);
    assert(leaves_count(GhostType::Widow, Evidence::EVPRecording) == 1);
    assert(leaves_count(GhostType::HobsTally, Evidence::EVPRecording) == 0);
    assert(leaves_count(GhostType::Ghoul, Evidence::EVPRecording) == 1);
    assert(leaves_count(GhostType::Afrit, Evidence::EVPRecording) == 1);
    assert(leaves_count(GhostType::Domovoi, Evidence::EVPRecording) == 1);
    assert(leaves_count(GhostType::Ghostlight, Evidence::EVPRecording) == 1);
    assert(leaves_count(GhostType::Kappa, Evidence::EVPRecording) == 0);
    assert(leaves_count(GhostType::Tengu, Evidence::EVPRecording) == 0);
    assert(leaves_count(GhostType::LaLlorona, Evidence::EVPRecording) == 1);
    assert(leaves_count(GhostType::Curupira, Evidence::EVPRecording) == 0);
    assert(leaves_count(GhostType::Dybbuk, Evidence::EVPRecording) == 1);
    assert(leaves_count(GhostType::Phooka, Evidence::EVPRecording) == 1);
    assert(leaves_count(GhostType::Wisp, Evidence::EVPRecording) == 1);
    assert(leaves_count(GhostType::GrayMan, Evidence::EVPRecording) == 1);
    assert(leaves_count(GhostType::LadyInWhite, Evidence::EVPRecording) == 1);
    assert(leaves_count(GhostType::Maresca, Evidence::EVPRecording) == 0);
    assert(leaves_count(GhostType::Gashadokuro, Evidence::EVPRecording) == 1);
    assert(leaves_count(GhostType::Jorogumo, Evidence::EVPRecording) == 1);
    assert(leaves_count(GhostType::Namahage, Evidence::EVPRecording) == 1);
    assert(leaves_count(GhostType::Tsuchinoko, Evidence::EVPRecording) == 1);
    assert(leaves_count(GhostType::Obayifo, Evidence::EVPRecording) == 0);
    assert(leaves_count(GhostType::Brume, Evidence::EVPRecording) == 0);
    assert(leaves_count(GhostType::Bugbear, Evidence::EVPRecording) == 0);
    assert(leaves_count(GhostType::Boggart, Evidence::EVPRecording) == 1);
    assert(leaves_count(GhostType::GreyLady, Evidence::EVPRecording) == 1);
    assert(leaves_count(GhostType::OldNan, Evidence::EVPRecording) == 1);
    assert(leaves_count(GhostType::BrownLady, Evidence::EVPRecording) == 1);
    assert(leaves_count(GhostType::Morag, Evidence::EVPRecording) == 1);
    assert(leaves_count(GhostType::Fionnuala, Evidence::EVPRecording) == 0);
    assert(leaves_count(GhostType::Ailill, Evidence::EVPRecording) == 0);
    assert(leaves_count(GhostType::Cairbre, Evidence::EVPRecording) == 1);
    assert(leaves_count(GhostType::Oonagh, Evidence::EVPRecording) == 1);
    assert(leaves_count(GhostType::Mider, Evidence::EVPRecording) == 1);
    assert(leaves_count(GhostType::Orla, Evidence::EVPRecording) == 0);
    assert(leaves_count(GhostType::Finvarra, Evidence::EVPRecording) == 0);
    assert(leaves_count(GhostType::Caoilte, Evidence::EVPRecording) == 0);
    assert(leaves_count(GhostType::Ceara, Evidence::EVPRecording) == 0);
    assert(leaves_count(GhostType::Muirgheas, Evidence::EVPRecording) == 1);
    assert(leaves_count(GhostType::Domovoy, Evidence::EVPRecording) == 1);
}

proof fn lemma_usage_spiritbox()
    ensures
        evidence_usage(Evidence::SpiritBox) == 28,
{
    reveal(evidence_usage);
    assert(leaves_count(GhostType::BeanSidhe, Evidence::SpiritBox) == 0);
    assert(leaves_count(GhostType::Dullahan, Evidence::SpiritBox) == 1);
    assert(leaves_count(GhostType::Leprechaun, Evidence::SpiritBox) == 1);
    assert(leaves_count(GhostType::Barghest, Evidence::SpiritBox) == 1);
    assert(leaves_count(GhostType::WillOWisp, Evidence::SpiritBox) == 1);
    assert(leaves_count(GhostType::Widow, Evidence::SpiritBox) == 1);
    assert(leaves_count(GhostType::HobsTally, Evidence::SpiritBox) == 0);
    assert(leaves_count(GhostType::Ghoul, Evidence::SpiritBox) == 0);
    assert(leaves_count(GhostType::Afrit, Evidence::SpiritBox) == 0);
    assert(leaves_count(GhostType::Domovoi, Evidence::SpiritBox) == 0);
    assert(leaves_count(GhostType::Ghostlight, Evidence::SpiritBox) == 0);
    assert(leaves_count(GhostType::Kappa, Evidence::SpiritBox) == 1);
    assert(leaves_count(GhostType::Tengu, Evidence::SpiritBox) == 1);
    assert(leaves_count(GhostType::LaLlorona, Evidence::SpiritBox) == 1);
    assert(leaves_count(GhostType::Curupira, Evidence::SpiritBox) == 1);
    assert(leaves_count(GhostType::Dybbuk, Evidence::SpiritBox) == 1);
    assert(leaves_count(GhostType::Phooka, Evidence::SpiritBox) == 1);
    assert(leaves_count(GhostType::Wisp, Evidence::SpiritBox) == 1);
    assert(leaves_count(GhostType::GrayMan, Evidence::SpiritBox) == 1);
    assert(leaves_count(GhostType::LadyInWhite, Evidence::SpiritBox) == 1);
    assert(leaves_count(GhostType::Maresca, Evidence::SpiritBox) == 0);
    assert(leaves_count(GhostType::Gashadokuro, Evidence::SpiritBox) == 0);
    assert(leaves_count(GhostType::Jorogumo, Evidence::SpiritBox) == 0);
    assert(leaves_count(GhostType::Namahage, Evidence::SpiritBox) == 0);
    assert(leaves_count(GhostType::Tsuchinoko, Evidence::SpiritBox) == 0);
    assert(leaves_count(GhostType::Obayifo, Evidence::SpiritBox) == 1);
    assert(leaves_count(GhostType::Brume, Evidence::SpiritBox) == 1);
    assert(leaves_count(GhostType::Bugbear, Evidence::SpiritBox) == 1);
    assert(leaves_count(GhostType::Boggart, Evidence::SpiritBox) == 1);
    assert(leaves_count(GhostType::GreyLady, Evidence::SpiritBox) == 1);
    assert(leaves_count(GhostType::OldNan, Evidence::SpiritBox) == 1);
    assert(leaves_count(GhostType::BrownLady, Evidence::SpiritBox) == 1);
    assert(leaves_count(GhostType::Morag, Evidence::SpiritBox) == 1);
    assert(leaves_count(GhostType::Fionnuala, Evidence::SpiritBox) == 0);
    assert(leaves_count(GhostType::Ailill, Evidence::SpiritBox) == 0);
    assert(leaves_count(GhostType::Cairbre, Evidence::SpiritBox) == 0);
    assert(leaves_count(GhostType::Oonagh, Evidence::SpiritBox) == 0);
    assert(leaves_count(GhostType::Mider, Evidence::SpiritBox) == 0);
    assert(leaves_count(GhostType::Orla, Evidence::SpiritBox) == 1);
    assert(leaves_count(GhostType::Finvarra, Evidence::SpiritBox) == 1);
    assert(leaves_count(GhostType::Caoilte, Evidence::SpiritBox) == 1);
    assert(leaves_count(GhostType::Ceara, Evidence::SpiritBox) == 1);
    assert(leaves_count(GhostType::Muirgheas, Evidence::SpiritBox) == 1);
    assert(leaves_count(GhostType::Domovoy, Evidence::SpiritBox) == 1);
}

proof fn lemma_usage_rlpresence()
    ensures
        evidence_usage(Evidence::RLPresence) == 26,
{
    reveal(evidence_usage);
    assert(leaves_count(GhostType::BeanSidhe, Evidence::RLPresence) == 0);
    assert(leaves_count(GhostType::Dullahan, Evidence::RLPresence) == 1);
    assert(leaves_count(GhostType::Leprechaun, Evidence::RLPresence) == 0);
    assert(leaves_count(GhostType::Barghest, Evidence::RLPresence) == 0);
    assert(leaves_count(GhostType::WillOWisp, Evidence::RLPresence) == 0);
    assert(leaves_count(GhostType::Widow, Evidence::RLPresence) == 0);
    assert(leaves_count(GhostType::HobsTally, Evidence::RLPresence) == 1);
    assert(leaves_count(GhostType::Ghoul, Evidence::RLPresence) == 1);
    assert(leaves_count(GhostType::Afrit, Evidence::RLPresence) == 1);
    assert(leaves_count(GhostType::Domovoi, Evidence::RLPresence) == 1);
    assert(leaves_count(GhostType::Ghostlight, Evidence::RLPresence) == 1);
    assert(leaves_count(GhostType::Kappa, Evidence::RLPresence) == 1);
    assert(leaves_count(GhostType::Tengu, Evidence::RLPresence) == 1);
    assert(leaves_count(GhostType::LaLlorona, Evidence::RLPresence) == 0);
    assert(leaves_count(GhostType::Curupira, Evidence::RLPresence) == 1);
    assert(leaves_count(GhostType::Dybbuk, Evidence::RLPresence) == 1);
    assert(leaves_count(GhostType::Phooka, Evidence::RLPresence) == 1);
    assert(leaves_count(GhostType::Wisp, Evidence::RLPresence) == 1);
    assert(leaves_count(GhostType::GrayMan, Evidence::RLPresence) == 1);
    assert(leaves_count(GhostType::LadyInWhite, Evidence::RLPresence) == 1);
    assert(leaves_count(GhostType::Maresca, Evidence::RLPresence) == 0);
    assert(leaves_count(GhostType::Gashadokuro, Evidence::RLPresence) == 0);
    assert(leaves_count(GhostType::Jorogumo, Evidence::RLPresence) == 0);
    assert(leaves_count(GhostType::Namahage, Evidence::RLPresence) == 0);
    assert(leaves_count(GhostType::Tsuchinoko, Evidence::RLPresence) == 0);
    assert(leaves_count(GhostType::Obayifo, Evidence::RLPresence) == 0);
    assert(leaves_count(GhostType::Brume, Evidence::RLPresence) == 0);
    assert(leaves_count(GhostType::Bugbear, Evidence::RLPresence) == 0);
    assert(leaves_count(GhostType::Boggart, Evidence::RLPresence) == 0);
    assert(leaves_count(GhostType::GreyLady, Evidence::RLPresence) == 0);
    assert(leaves_count(GhostType::OldNan, Evidence::RLPresence) == 0);
    assert(leaves_count(GhostType::BrownLady, Evidence::RLPresence) == 1);
    assert(leaves_count(GhostType::Morag, Evidence::RLPresence) == 0);
    assert(leaves_count(GhostType::Fionnuala, Evidence::RLPresence) == 1);
    assert(leaves_count(GhostType::Ailill, Evidence::RLPresence) == 1);
    assert(leaves_count(GhostType::Cairbre, Evidence::RLPresence) == 1);
    assert(leaves_count(GhostType::Oonagh, Evidence::RLPresence) == 1);
    assert(leaves_count(GhostType::Mider, Evidence::RLPresence) == 1);
    assert(leaves_count(GhostType::Orla, Evidence::RLPresence) == 1);
    assert(leaves_count(GhostType::Finvarra, Evidence::RLPresence) == 1);
    assert(leaves_count(GhostType::Caoilte, Evidence::RLPresence) == 1);
    assert(leaves_count(GhostType::Ceara, Evidence::RLPresence) == 1);
    assert(leaves_count(GhostType::Muirgheas, Evidence::RLPresence) == 1);
    assert(leaves_count(GhostType::Domovoy, Evidence::RLPresence) == 1);
}

proof fn lemma_usage_cpm500()
    ensures
        evidence_usage(Evidence::CPM500) == 27,
{
    reveal(evidence_usage);
    assert(leaves_count(GhostType::BeanSidhe, Evidence::CPM500) == 0);
    assert(leaves_count(GhostType::Dullahan, Evidence::CPM500) == 0);
    assert(leaves_count(GhostType::Leprechaun, Evidence::CPM500) == 0);
    assert(leaves_count(GhostType::Barghest, Evidence::CPM500) == 0);
    assert(leaves_count(GhostType::WillOWisp, Evidence::CPM500) == 0);
    assert(leaves_count(GhostType::Widow, Evidence::CPM500) == 0);
    assert(leaves_count(GhostType::HobsTally, Evidence::CPM500) == 0);
    assert(leaves_count(GhostType::Ghoul, Evidence::CPM500) == 0);
    assert(leaves_count(GhostType::Afrit, Evidence::CPM500) == 0);
    assert(leaves_count(GhostType::Domovoi, Evidence::CPM500) == 0);
    assert(leaves_count(GhostType::Ghostlight, Evidence::CPM500) == 0);
    assert(leaves_count(GhostType::Kappa, Evidence::CPM500) == 1);
    assert(leaves_count(GhostType::Tengu, Evidence::CPM500) == 0);
    assert(leaves_count(GhostType::LaLlorona, Evidence::CPM500) == 1);
    assert(leaves_count(GhostType::Curupira, Evidence::CPM500) == 0);
    assert(leaves_count(GhostType::Dybbuk, Evidence::CPM500) == 0);
    assert(leaves_count(GhostType::Phooka, Evidence::CPM500) == 0);
    assert(leaves_count(GhostType::Wisp, Evidence::CPM500) == 0);
    assert(leaves_count(GhostType::GrayMan, Evidence::CPM500) == 0);
    assert(leaves_count(GhostType::LadyInWhite, Evidence::CPM500) == 1);
    assert(leaves_count(GhostType::Maresca, Evidence::CPM500) == 1);
    assert(leaves_count(GhostType::Gashadokuro, Evidence::CPM500) == 1);
    assert(leaves_count(GhostType::Jorogumo, Evidence::CPM500) == 1);
    assert(leaves_count(GhostType::Namahage, Evidence::CPM500) == 1);
    assert(leaves_count(GhostType::Tsuchinoko, Evidence::CPM500) == 1);
    assert(leaves_count(GhostType::Obayifo, Evidence::CPM500) == 1);
    assert(leaves_count(GhostType::Brume, Evidence::CPM500) == 1);
    assert(leaves_count(GhostType::Bugbear, Evidence::CPM500) == 1);
    assert(leaves_count(GhostType::Boggart, Evidence::CPM500) == 1);
    assert(leaves_count(GhostType::GreyLady, Evidence::CPM500) == 1);
    assert(leaves_count(GhostType::OldNan, Evidence::CPM500) == 1);
    assert(leaves_count(GhostType::BrownLady, Evidence::CPM500) == 1);
    assert(leaves_count(GhostType::Morag, Evidence::CPM500) == 1);
    assert(leaves_count(GhostType::Fionnuala, Evidence::CPM500) == 1);
    assert(leaves_count(GhostType::Ailill, Evidence::CPM500) == 1);
    assert(leaves_count(GhostType::Cairbre, Evidence::CPM500) == 1);
    assert(leaves_count(GhostType::Oonagh, Evidence::CPM500) == 1);
    assert(leaves_count(GhostType::Mider, Evidence::CPM500) == 1);
    assert(leaves_count(GhostType::Orla, Evidence::CPM500) == 1);
    assert(leaves_count(GhostType::Finvarra, Evidence::CPM500) == 1);
    assert(leaves_count(GhostType::Caoilte, Evidence::CPM500) == 1);
    assert(leaves_count(GhostType::Ceara, Evidence::CPM500) == 1);
    assert(leaves_count(GhostType::Muirgheas, Evidence::CPM500) == 1);
    assert(leaves_count(GhostType::Domovoy, Evidence::CPM500) == 1);
}

/// How many ghost types leave each evidence.
pub proof fn lemma_usage_values()
    ensures
        evidence_usage(Evidence::FreezingTemp) == 27,
        evidence_usage(Evidence::FloatingOrbs) == 29,
        evidence_usage(Evidence::UVEctoplasm) == 29,
        evidence_usage(Evidence::EMFLevel5) == 25,
        evidence_usage(Evidence::EVPRecording) == 29,
        evidence_usage(Evidence::SpiritBox) == 28,
        evidence_usage(Evidence::RLPresence) == 26,
        evidence_usage(Evidence::CPM500) == 27,
{
    lemma_usage_freezingtemp();
    lemma_usage_floatingorbs();
    lemma_usage_uvectoplasm();
    lemma_usage_emflevel5();
    lemma_usage_evprecording();
    lemma_usage_spiritbox();
    lemma_usage_rlpresence();
    lemma_usage_cpm500();
}

/// The evidences are used evenly: every evidence is left by some ghost type,
/// the catalogue holds 220 (ghost type, evidence) pairs over the eight
/// evidences, and each evidence is left by a number of ghost types that
/// differs by at most three from the average use per used evidence
/// (220 / 8, that is 27).
pub proof fn lemma_balanced_evidence_usage(e: Evidence)
    ensures
        evidence_usage(e) > 0,
        total_evidence_usage() == 220,
        used_evidence_count() == 8,
        total_evidence_usage() / used_evidence_count() == 27,
        total_evidence_usage() / used_evidence_count() - 3 <= evidence_usage(e)
            <= total_evidence_usage() / used_evidence_count() + 3,
{
    lemma_usage_values();
    assert(total_evidence_usage() == 220);
}

/// Each evidence is registered by exactly one kind of gear: two pieces of
/// gear that register the same evidence are of the same kind, and every
/// evidence has a piece of gear that registers it. The thermometer finds
/// freezing temperatures, the EMF meter EMF level 5, the recorder EVP
/// recordings, the Geiger counter CPM 500, the UV torch UV ectoplasm, the
/// spirit box spirit box answers, the red torch RL presence and the video
/// camera floating orbs.
pub proof fn lemma_gear_evidence_one_to_one(g1: GearKind, g2: GearKind, e: Evidence)
    ensures
        Evidence::gear_evidence(g1) is Some && Evidence::gear_evidence(g1) == Evidence::gear_evidence(g2)
            ==> kind_tag(g1) == kind_tag(g2),
        exists|g: GearKind| #[trigger] Evidence::gear_evidence(g) == Some(e),
        g1 is Thermometer ==> Evidence::gear_evidence(g1) == Some(Evidence::FreezingTemp),
        g1 is EMFMeter ==> Evidence::gear_evidence(g1) == Some(Evidence::EMFLevel5),
        g1 is Recorder ==> Evidence::gear_evidence(g1) == Some(Evidence::EVPRecording),
        g1 is GeigerCounter ==> Evidence::gear_evidence(g1) == Some(Evidence::CPM500),
        g1 is UVTorch ==> Evidence::gear_evidence(g1) == Some(Evidence::UVEctoplasm),
        g1 is SpiritBox ==> Evidence::gear_evidence(g1) == Some(Evidence::SpiritBox),
        g1 is RedTorch ==> Evidence::gear_evidence(g1) == Some(Evidence::RLPresence),
        g1 is Videocam ==> Evidence::gear_evidence(g1) == Some(Evidence::FloatingOrbs),
{
    let g = match e {
        Evidence::FreezingTemp => GearKind::Thermometer(Thermometer { enabled: false }),
        Evidence::FloatingOrbs => GearKind::Videocam(Videocam { enabled: false }),
        Evidence::UVEctoplasm => GearKind::UVTorch(UVTorch { enabled: false }),
        Evidence::EMFLevel5 => GearKind::EMFMeter(EMFMeter { enabled: false }),
        Evidence::EVPRecording => GearKind::Recorder(
            Recorder { enabled: false, loudness_band: 0, evp_recorded_display: false },
        ),
        Evidence::SpiritBox => GearKind::SpiritBox(SpiritBox { enabled: false }),
        Evidence::RLPresence => GearKind::RedTorch(RedTorch { enabled: false }),
        Evidence::CPM500 => GearKind::GeigerCounter(GeigerCounter { enabled: false, ticking: false }),
    };
    assert(Evidence::gear_evidence(g) == Some(e));
}

} // verus!
