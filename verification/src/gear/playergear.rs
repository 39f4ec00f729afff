//! The gear a player carries: one item in each hand and a stowed inventory,
//! with the operations of cycling, swapping hands and crafting repellent.

use vstd::prelude::*;

use super::flashlight::{Flashlight, FlashlightStatus};
use super::repellentflask::{RepellentFlask, FLASK_MAX_QTY};
use super::switchable::{
    EMFMeter, GeigerCounter, Recorder, RedTorch, SpiritBox, Thermometer, UVTorch, Videocam,
};
use super::{Gear, GearKind};
use crate::ghost_definitions::GhostType;

verus! {

/// A hand of the player.
#[derive(Debug, Clone, Copy, PartialEq, Eq, Structural)]
pub enum Hand {
    Left,
    Right,
}

/// Marks the UI slot that shows the `idx`-th next item of the inventory.
#[derive(Debug, Clone, Copy, PartialEq, Eq, Structural)]
pub struct InventoryNext {
    pub idx: usize,
}

impl InventoryNext {
    /// Creates the marker for the `idx`-th next item.
    pub fn new(idx: usize) -> (r: InventoryNext)
        ensures
            r.idx == idx,
    {
        InventoryNext { idx }
    }
}

/// Marks the UI slot that shows the item in a hand.
#[derive(Debug, Clone, Copy, PartialEq, Eq, Structural)]
pub struct Inventory {
    pub hand: Hand,
}

impl Inventory {
    /// The slot of the left hand.
    pub fn new_left() -> (r: Inventory)
        ensures
            r.hand == Hand::Left,
    {
        Inventory { hand: Hand::Left }
    }

    /// The slot of the right hand.
    pub fn new_right() -> (r: Inventory)
        ensures
            r.hand == Hand::Right,
    {
        Inventory { hand: Hand::Right }
    }
}

/// Where a piece of gear is.
#[derive(Debug, Clone, Copy, PartialEq, Eq, Structural)]
pub enum EquipmentPosition {
    Hand(Hand),
    Stowed,
    Deployed,
}

/// Marks the UI text that shows the stats of the item in hand.
#[derive(Debug, Clone, Copy, PartialEq, Eq, Structural)]
pub struct InventoryStats;

/// The gear a player carries.
#[derive(Debug, Clone)]
pub struct PlayerGear {
    pub left_hand: Gear,
    pub right_hand: Gear,
    pub inventory: Vec<Gear>,
}

/// Whether the slot holds a repellent flask.
pub open spec fn is_flask(g: Gear) -> bool {
    g.kind is RepellentFlask
}

/// The slot after filling: a flask filled with a full dose against `ghost`;
/// any other slot is unchanged.
pub open spec fn filled(g: Gear, ghost: GhostType) -> Gear {
    match g.kind {
        GearKind::RepellentFlask(f) => Gear {
            kind: GearKind::RepellentFlask(
                RepellentFlask { liquid_content: Some(ghost), active: false, qty: FLASK_MAX_QTY },
            ),
        },
        _ => g,
    }
}

/// The first position at or after `start` in `s` that holds a flask.
pub open spec fn first_flask_from(s: Seq<Gear>, start: nat) -> Option<nat>
    decreases s.len() - start,
{
    if start >= s.len() {
        None
    } else if is_flask(s[start as int]) {
        Some(start)
    } else {
        first_flask_from(s, start + 1)
    }
}

/// The first position at or after `start` in `s` that holds no gear.
pub open spec fn first_empty_from(s: Seq<Gear>, start: nat) -> Option<nat>
    decreases s.len() - start,
{
    if start >= s.len() {
        None
    } else if s[start as int].kind is Empty {
        Some(start)
    } else {
        first_empty_from(s, start + 1)
    }
}

/// An empty repellent flask, as crafting adds one.
pub open spec fn empty_flask() -> Gear {
    Gear { kind: GearKind::RepellentFlask(RepellentFlask { liquid_content: None, active: false, qty: 0 }) }
}

/// The slots in the order the player's gear is listed: left hand, right
/// hand, then the inventory.
pub open spec fn slots_of(left: Gear, right: Gear, inventory: Seq<Gear>) -> Seq<Gear> {
    seq![left, right] + inventory
}

/// Whether repellent can be crafted for `ghost` with the gear in `s`: when
/// there is no flask yet, or when the first flask can be filled with it.
pub open spec fn can_craft(s: Seq<Gear>, ghost: GhostType) -> bool {
    match first_flask_from(s, 0) {
        None => true,
        Some(k) => match s[k as int].kind {
            GearKind::RepellentFlask(f) => !(f.liquid_content == Some(ghost) && !f.active && f.qty
                == FLASK_MAX_QTY),
            _ => false,
        },
    }
}

/// The slots after crafting repellent for `ghost`: an empty flask is added
/// to the inventory when there is none, then the first flask is filled.
pub open spec fn crafted(s: Seq<Gear>, ghost: GhostType) -> Seq<Gear> {
    let base = if first_flask_from(s, 0) is Some {
        s
    } else {
        s.push(empty_flask())
    };
    match first_flask_from(base, 0) {
        Some(k) => base.update(k as int, filled(base[k as int], ghost)),
        None => base,
    }
}

/// The items in the right hand and the inventory, as one ring that cycling
/// turns by one place.
pub open spec fn ring_of(right: Gear, inventory: Seq<Gear>) -> Seq<Gear> {
    seq![right] + inventory
}

/// The ring `r` turned `k` places: its item at `k` comes first.
pub open spec fn rotated(r: Seq<Gear>, k: int) -> Seq<Gear> {
    r.subrange(k, r.len() as int) + r.subrange(0, k)
}

impl PlayerGear {
    /// The slots of the player's gear: left hand, right hand, inventory.
    pub open spec fn slots(&self) -> Seq<Gear> {
        slots_of(self.left_hand, self.right_hand, self.inventory@)
    }

    /// The right hand and the inventory, as the ring that cycling turns.
    pub open spec fn ring(&self) -> Seq<Gear> {
        ring_of(self.right_hand, self.inventory@)
    }

    /// The starting gear: flashlight in the left hand, thermometer in the
    /// right, and eight more items stowed.
    pub fn new() -> (r: PlayerGear)
        ensures
            r.left_hand == (Gear {
                kind: GearKind::Flashlight(
                    Flashlight { status: FlashlightStatus::Off, frame_counter: 0, rand: 0 },
                ),
            }),
            r.right_hand == (Gear { kind: GearKind::Thermometer(Thermometer { enabled: false }) }),
            r.inventory@ == seq![
                Gear { kind: GearKind::EMFMeter(EMFMeter { enabled: false }) },
                Gear { kind: GearKind::UVTorch(UVTorch { enabled: false }) },
                Gear { kind: GearKind::SpiritBox(SpiritBox { enabled: false }) },
                Gear { kind: GearKind::Recorder(Recorder { enabled: false, loudness_band: 0, evp_recorded_display: false }) },
                Gear { kind: GearKind::Videocam(Videocam { enabled: false }) },
                Gear { kind: GearKind::RedTorch(RedTorch { enabled: false }) },
                Gear { kind: GearKind::GeigerCounter(GeigerCounter { enabled: false, ticking: false }) },
                empty_flask(),
            ],
    {
        let inventory = vec![
            Gear::new_from_kind(GearKind::EMFMeter(EMFMeter::new())),
            Gear::new_from_kind(GearKind::UVTorch(UVTorch::new())),
            Gear::new_from_kind(GearKind::SpiritBox(SpiritBox::new())),
            Gear::new_from_kind(GearKind::Recorder(Recorder::new())),
            Gear::new_from_kind(GearKind::Videocam(Videocam::new())),
            Gear::new_from_kind(GearKind::RedTorch(RedTorch::new())),
            Gear::new_from_kind(GearKind::GeigerCounter(GeigerCounter::new())),
            Gear::new_from_kind(GearKind::RepellentFlask(RepellentFlask::new())),
        ];
        let r = PlayerGear {
            left_hand: Gear::new_from_kind(GearKind::Flashlight(Flashlight::new())),
            right_hand: Gear::new_from_kind(GearKind::Thermometer(Thermometer::new())),
            inventory,
        };
        assert(r.inventory@ =~= seq![
            Gear { kind: GearKind::EMFMeter(EMFMeter { enabled: false }) },
            Gear { kind: GearKind::UVTorch(UVTorch { enabled: false }) },
            Gear { kind: GearKind::SpiritBox(SpiritBox { enabled: false }) },
            Gear { kind: GearKind::Recorder(Recorder { enabled: false, loudness_band: 0, evp_recorded_display: false }) },
            Gear { kind: GearKind::Videocam(Videocam { enabled: false }) },
            Gear { kind: GearKind::RedTorch(RedTorch { enabled: false }) },
            Gear { kind: GearKind::GeigerCounter(GeigerCounter { enabled: false, ticking: false }) },
            empty_flask(),
        ]);
        r
    }

    /// Lists every slot with its position: the two hands, then the inventory
    /// as stowed.
    pub fn as_vec(&self) -> (r: Vec<(Gear, EquipmentPosition)>)
        ensures
            r@.len() == self.inventory@.len() + 2,
            r@[0] == (self.left_hand, EquipmentPosition::Hand(Hand::Left)),
            r@[1] == (self.right_hand, EquipmentPosition::Hand(Hand::Right)),
            forall|i: int|
                0 <= i < self.inventory@.len() ==> #[trigger] r@[i + 2] == (
                    self.inventory@[i],
                    EquipmentPosition::Stowed,
                ),
    {
        let mut ret: Vec<(Gear, EquipmentPosition)> = Vec::new();
        ret.push((self.left_hand, EquipmentPosition::Hand(Hand::Left)));
        ret.push((self.right_hand, EquipmentPosition::Hand(Hand::Right)));
        let n = self.inventory.len();
        let mut i: usize = 0;
        while i < n
            invariant
                n == self.inventory@.len(),
                i <= n,
                ret@.len() == i + 2,
                ret@[0] == (self.left_hand, EquipmentPosition::Hand(Hand::Left)),
                ret@[1] == (self.right_hand, EquipmentPosition::Hand(Hand::Right)),
                forall|j: int|
                    0 <= j < i ==> #[trigger] ret@[j + 2] == (
                        self.inventory@[j],
                        EquipmentPosition::Stowed,
                    ),
            decreases n - i,
        {
            ret.push((self.inventory[i], EquipmentPosition::Stowed));
            i = i + 1;
        }
        ret
    }

    /// Returns the `idx`-th stowed item, or `None` past the end of the
    /// inventory (an empty slot that exists is `Some` of an empty gear).
    pub fn get_next(&self, idx: usize) -> (r: Option<Gear>)
        ensures
            idx < self.inventory@.len() ==> r == Some(self.inventory@[idx as int]),
            idx >= self.inventory@.len() ==> r is None,
    {
        if idx < self.inventory.len() {
            Some(self.inventory[idx])
        } else {
            None
        }
    }

    /// Moves the first stowed item to the right hand, shifts the inventory up
    /// and stows the old right-hand item last. The left hand is untouched.
    pub fn cycle(&mut self)
        requires
            old(self).inventory@.len() > 0,
        ensures
            final(self).left_hand == old(self).left_hand,
            final(self).right_hand == old(self).inventory@[0],
            final(self).inventory@ == old(self).inventory@.drop_first().push(old(self).right_hand),
            final(self).ring() == rotated(old(self).ring(), 1),
    {
        let ghost old_inv = self.inventory@;
        let ghost old_left = self.left_hand;
        let old_right = self.right_hand;
        let last_idx = self.inventory.len() - 1;
        self.right_hand = self.inventory[0];
        let mut i: usize = 0;
        while i < last_idx
            invariant
                last_idx + 1 == old_inv.len(),
                self.inventory@.len() == old_inv.len(),
                self.left_hand == old_left,
                self.right_hand == old_inv[0],
                i <= last_idx,
                forall|j: int| 0 <= j < i ==> #[trigger] self.inventory@[j] == old_inv[j + 1],
                forall|j: int| i <= j < old_inv.len() ==> #[trigger] self.inventory@[j] == old_inv[j],
            decreases last_idx - i,
        {
            let next = self.inventory[i + 1];
            self.inventory.set(i, next);
            i = i + 1;
        }
        self.inventory.set(last_idx, old_right);
        assert(self.inventory@ =~= old_inv.drop_first().push(old_right));
        let ghost r0 = ring_of(old_right, old_inv);
        assert(r0.subrange(1, r0.len() as int) =~= old_inv);
        assert(r0.subrange(0, 1) =~= seq![old_right]);
        assert(self.right_hand == old_inv[0]);
        assert(self.ring() =~= rotated(r0, 1));
    }

    /// Exchanges the items in the two hands.
    pub fn swap(&mut self)
        ensures
            final(self).left_hand == old(self).right_hand,
            final(self).right_hand == old(self).left_hand,
            final(self).inventory@ == old(self).inventory@,
    {
        let l = self.left_hand;
        self.left_hand = self.right_hand;
        self.right_hand = l;
    }

    /// Returns the item in the given hand.
    pub fn get_hand(&self, hand: &Hand) -> (r: Gear)
        ensures
            r == (match *hand {
                Hand::Left => self.left_hand,
                Hand::Right => self.right_hand,
            }),
    {
        match hand {
            Hand::Left => self.left_hand,
            Hand::Right => self.right_hand,
        }
    }

    /// Returns where the first flask among the slots is, if any.
    fn find_flask(&self) -> (r: Option<FlaskSlot>)
        ensures
            r matches Some(f) ==> f.wf(self.inventory@.len()) && first_flask_from(self.slots(), 0)
                == Some(f.pos()),
            r is None ==> first_flask_from(self.slots(), 0) is None,
    {
        if self.left_hand.kind.is_flask() {
            return Some(FlaskSlot::Left);
        }
        proof {
            lemma_first_flask_step(self.slots(), 0);
        }
        if self.right_hand.kind.is_flask() {
            return Some(FlaskSlot::Right);
        }
        proof {
            lemma_first_flask_step(self.slots(), 1);
        }
        let n = self.inventory.len();
        let mut i: usize = 0;
        while i < n
            invariant
                n == self.inventory@.len(),
                i <= n,
                first_flask_from(self.slots(), 0) == first_flask_from(self.slots(), (i + 2) as nat),
            decreases n - i,
        {
            assert(self.slots()[i + 2] == self.inventory@[i as int]);
            if self.inventory[i].kind.is_flask() {
                return Some(FlaskSlot::Stowed(i));
            }
            proof {
                lemma_first_flask_step(self.slots(), (i + 2) as nat);
            }
            i = i + 1;
        }
        None
    }

    /// Deploys the gear in the right hand on the floor when the spot allows
    /// it (`can_place`) and the hand holds something: the hand's gear is
    /// returned and the inventory cycles into the emptied hand. Nothing
    /// changes otherwise.
    pub fn deploy_gear(&mut self, can_place: bool) -> (r: Option<Gear>)
        requires
            can_place && !(old(self).right_hand.kind is Empty) ==> old(self).inventory@.len() > 0,
        ensures
            can_place && !(old(self).right_hand.kind is Empty) ==> r == Some(old(self).right_hand)
                && final(self).left_hand == old(self).left_hand && final(self).right_hand == old(
                self,
            ).inventory@[0] && final(self).inventory@ == old(self).inventory@.drop_first().push(
                Gear { kind: GearKind::Empty },
            ),
            !(can_place && !(old(self).right_hand.kind is Empty)) ==> r is None && *final(self)
                == *old(self),
    {
        if !can_place || self.right_hand.kind.is_none() {
            return None;
        }
        let deployed = self.right_hand.take();
        self.cycle();
        Some(deployed)
    }

    /// Takes deployed gear `g` into the right hand. When the hand is busy
    /// its gear first moves to the first empty inventory slot; with no empty
    /// slot nothing changes and `false` is returned.
    pub fn retrieve_gear(&mut self, g: Gear) -> (r: bool)
        ensures
            old(self).right_hand.kind is Empty ==> r && final(self).right_hand == g
                && final(self).left_hand == old(self).left_hand && final(self).inventory@ == old(
                self,
            ).inventory@,
            !(old(self).right_hand.kind is Empty) ==> match first_empty_from(
                old(self).inventory@,
                0,
            ) {
                Some(i) => r && final(self).right_hand == g && final(self).left_hand == old(
                    self,
                ).left_hand && final(self).inventory@ == old(self).inventory@.update(
                    i as int,
                    old(self).right_hand,
                ),
                None => !r && *final(self) == *old(self),
            },
    {
        if self.right_hand.kind.is_some() {
            let n = self.inventory.len();
            let mut i: usize = 0;
            while i < n && self.inventory[i].kind.is_some()
                invariant
                    n == self.inventory@.len(),
                    i <= n,
                    first_empty_from(self.inventory@, 0) == first_empty_from(self.inventory@, i as nat),
                decreases n - i,
            {
                i = i + 1;
            }
            if i == n {
                return false;
            }
            let moved = self.right_hand;
            self.inventory.set(i, moved);
        }
        self.right_hand = g;
        true
    }

    /// Returns the gear in the given slot.
    fn gear_at(&self, f: FlaskSlot) -> (r: Gear)
        requires
            f.wf(self.inventory@.len()),
        ensures
            r == self.slots()[f.pos() as int],
    {
        match f {
            FlaskSlot::Left => self.left_hand,
            FlaskSlot::Right => self.right_hand,
            FlaskSlot::Stowed(i) => self.inventory[i],
        }
    }

    /// Fills the first flask (left hand, right hand, then inventory) with a
    /// full dose of repellent against `ghost_type`; when the player has no
    /// flask, an empty one is first added to the inventory.
    pub fn craft_repellent(&mut self, ghost_type: GhostType)
        ensures
            final(self).slots() == crafted(old(self).slots(), ghost_type),
    {
        let ghost s0 = self.slots();
        let found = self.find_flask();
        if found.is_none() {
            self.inventory.push(Gear::new_from_kind(GearKind::RepellentFlask(RepellentFlask::new())));
            assert(self.slots() =~= s0.push(empty_flask()));
            proof {
                lemma_push_flask_found(s0);
            }
        }
        let ghost base = self.slots();
        let f = match self.find_flask() {
            Some(f) => f,
            None => {
                return;
            },
        };
        let mut g = self.gear_at(f);
        g.kind.fill_flask(ghost_type);
        match f {
            FlaskSlot::Left => {
                self.left_hand = g;
            },
            FlaskSlot::Right => {
                self.right_hand = g;
            },
            FlaskSlot::Stowed(i) => {
                self.inventory.set(i, g);
            },
        }
        assert(self.slots() =~= base.update(f.pos() as int, filled(base[f.pos() as int], ghost_type)));
    }

    /// Returns whether repellent can be crafted for `ghost_type`: when the
    /// player has no flask, or when the first flask does not already hold a
    /// full, unused dose against it.
    pub fn can_craft_repellent(&self, ghost_type: GhostType) -> (r: bool)
        ensures
            r == can_craft(self.slots(), ghost_type),
    {
        match self.find_flask() {
            None => true,
            Some(f) => {
                let g = self.gear_at(f);
                match g.kind {
                    GearKind::RepellentFlask(flask) => flask.can_fill_liquid(ghost_type),
                    _ => false,
                }
            },
        }
    }
}

/// A slot of the player's gear.
#[derive(Debug, Clone, Copy, PartialEq, Eq, Structural)]
pub enum FlaskSlot {
    Left,
    Right,
    Stowed(usize),
}

impl FlaskSlot {
    /// The slot exists for an inventory of `n` items.
    pub open spec fn wf(self, n: nat) -> bool {
        match self {
            FlaskSlot::Stowed(i) => i < n,
            _ => true,
        }
    }

    /// Position of the slot in the listing left hand, right hand, inventory.
    pub open spec fn pos(self) -> nat {
        match self {
            FlaskSlot::Left => 0,
            FlaskSlot::Right => 1,
            FlaskSlot::Stowed(i) => (i + 2) as nat,
        }
    }
}

impl GearKind {
    /// Whether this is a repellent flask.
    pub fn is_flask(&self) -> (r: bool)
        ensures
            r == (*self is RepellentFlask),
    {
        match self {
            GearKind::RepellentFlask(_) => true,
            _ => false,
        }
    }

    /// Fills a flask with a full dose against `ghost`; other gear is unchanged.
    pub fn fill_flask(&mut self, ghost: GhostType)
        ensures
            (Gear { kind: *final(self) }) == filled((Gear { kind: *old(self) }), ghost),
    {
        match self {
            GearKind::RepellentFlask(f) => {
                f.fill_liquid(ghost);
            },
            _ => {},
        }
    }
}

proof fn lemma_first_flask_bounds(s: Seq<Gear>, start: nat)
    ensures
        first_flask_from(s, start) matches Some(k) ==> start <= k < s.len() && is_flask(s[k as int]),
    decreases s.len() - start,
{
    if start < s.len() && !is_flask(s[start as int]) {
        lemma_first_flask_bounds(s, start + 1);
    }
}

proof fn lemma_first_flask_step(s: Seq<Gear>, start: nat)
    requires
        start < s.len(),
        !is_flask(s[start as int]),
    ensures
        first_flask_from(s, start) == first_flask_from(s, start + 1),
{
}

proof fn lemma_no_flask_from(s: Seq<Gear>, start: nat)
    requires
        first_flask_from(s, start) is None,
    ensures
        forall|i: int| start <= i < s.len() ==> !is_flask(#[trigger] s[i]),
    decreases s.len() - start,
{
    if start < s.len() {
        lemma_no_flask_from(s, start + 1);
    }
}

proof fn lemma_first_flask_is_first(s: Seq<Gear>, start: nat, k: nat)
    requires
        start <= k < s.len(),
        is_flask(s[k as int]),
        forall|i: int| start <= i < k ==> !is_flask(#[trigger] s[i]),
    ensures
        first_flask_from(s, start) == Some(k),
    decreases k - start,
{
    if start < k {
        lemma_first_flask_is_first(s, start + 1, k);
    }
}

proof fn lemma_push_flask_found(s: Seq<Gear>)
    requires
        first_flask_from(s, 0) is None,
    ensures
        first_flask_from(s.push(empty_flask()), 0) == Some(s.len()),
{
    let t = s.push(empty_flask());
    lemma_no_flask_from(s, 0);
    assert forall|i: int| 0 <= i < s.len() implies !is_flask(#[trigger] t[i]) by {
        assert(t[i] == s[i]);
    }
    lemma_first_flask_is_first(t, 0, s.len());
}

/// After crafting repellent for a ghost type, crafting it again for the same
/// ghost type is refused: the first flask already holds a full, unused dose.
pub proof fn lemma_craft_then_cannot_craft(s: Seq<Gear>, ghost: GhostType)
    ensures
        !can_craft(crafted(s, ghost), ghost),
{
    let base = if first_flask_from(s, 0) is Some {
        s
    } else {
        s.push(empty_flask())
    };
    if first_flask_from(s, 0) is None {
        lemma_push_flask_found(s);
    }
    lemma_first_flask_bounds(base, 0);
    let k = first_flask_from(base, 0)->0;
    let t = base.update(k as int, filled(base[k as int], ghost));
    assert(t == crafted(s, ghost));
    // Every slot before k holds no flask in `base`, hence none in `t`.
    assert forall|i: int| 0 <= i < k implies !is_flask(#[trigger] t[i]) by {
        if is_flask(base[i]) {
            lemma_flask_before_first(base, i as nat);
        }
        assert(t[i] == base[i]);
    }
    lemma_first_flask_is_first(t, 0, k);
}

proof fn lemma_flask_before_first(s: Seq<Gear>, i: nat)
    requires
        i < s.len(),
        is_flask(s[i as int]),
    ensures
        first_flask_from(s, 0) matches Some(k) ==> k <= i,
{
    lemma_first_flask_le(s, 0, i);
}

proof fn lemma_first_flask_le(s: Seq<Gear>, start: nat, i: nat)
    requires
        start <= i < s.len(),
        is_flask(s[i as int]),
    ensures
        first_flask_from(s, start) matches Some(k) && k <= i,
    decreases i - start,
{
    if start < i && !is_flask(s[start as int]) {
        lemma_first_flask_le(s, start + 1, i);
    }
}

/// Turning a turned ring adds the turns: cycling `a` times and then `b`
/// times turns the ring of the right hand and the inventory by `a + b`.
pub proof fn lemma_rotation_compose(r: Seq<Gear>, a: int, b: int)
    requires
        0 <= a,
        0 <= b,
        a + b <= r.len(),
    ensures
        rotated(rotated(r, a), b) == rotated(r, a + b),
{
    assert(rotated(rotated(r, a), b) =~= rotated(r, a + b));
}

/// Turning the ring by its full length gives it back unchanged.
pub proof fn lemma_full_rotation(r: Seq<Gear>)
    ensures
        rotated(r, r.len() as int) == r,
{
    assert(rotated(r, r.len() as int) =~= r);
}

/// Swapping hands twice gives back the gear as it was.
pub proof fn lemma_swap_twice(p0: PlayerGear, p1: PlayerGear, p2: PlayerGear)
    requires
        p1.left_hand == p0.right_hand,
        p1.right_hand == p0.left_hand,
        p1.inventory@ == p0.inventory@,
        p2.left_hand == p1.right_hand,
        p2.right_hand == p1.left_hand,
        p2.inventory@ == p1.inventory@,
    ensures
        p2.slots() == p0.slots(),
{
    assert(p2.slots() =~= p0.slots());
}

} // verus!
