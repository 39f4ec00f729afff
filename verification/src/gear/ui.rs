//! The gear keys of a player: cycling the inventory, swapping hands and
//! using what each hand holds.

use vstd::prelude::*;

use super::playergear::PlayerGear;
use super::{Gear, GearKind};

verus! {

/// The gear in hand once it is used.
pub open spec fn used(g: Gear) -> Gear {
    Gear { kind: g.kind.triggered() }
}

/// Using `g` lights a sage bundle: it is one that is not burning yet.
pub open spec fn lights_sage(g: Gear) -> bool {
    g.kind matches GearKind::SageBundle(x) && !x.is_active
}

/// Left hand, right hand and inventory once the inventory has cycled into
/// the right hand (when `cycle`) and then the hands have swapped (when
/// `swap`).
pub open spec fn after_moves(left: Gear, right: Gear, inventory: Seq<Gear>, cycle: bool, swap: bool) -> (
    Gear,
    Gear,
    Seq<Gear>,
) {
    let (l1, r1, i1) = if cycle {
        (left, inventory[0], inventory.drop_first().push(right))
    } else {
        (left, right, inventory)
    };
    if swap {
        (r1, l1, i1)
    } else {
        (l1, r1, i1)
    }
}

/// Left hand, right hand and inventory after the gear keys pressed: first
/// the inventory cycles into the right hand, then the hands swap, then the
/// right-hand gear is used (trigger) and then the left-hand one (torch).
pub open spec fn after_gear_keys(
    left: Gear,
    right: Gear,
    inventory: Seq<Gear>,
    cycle: bool,
    swap: bool,
    trigger: bool,
    torch: bool,
) -> (Gear, Gear, Seq<Gear>) {
    let (l2, r2, i2) = after_moves(left, right, inventory, cycle, swap);
    (
        if torch {
            used(l2)
        } else {
            l2
        },
        if trigger {
            used(r2)
        } else {
            r2
        },
        i2,
    )
}

/// Applies the gear keys of a player; see `after_gear_keys`. Returns, for
/// the right and the left hand, whether using it lit a sage bundle.
pub fn keyboard_gear(gear: &mut PlayerGear, cycle: bool, swap: bool, trigger: bool, torch: bool) -> (r:
    (bool, bool))
    requires
        cycle ==> old(gear).inventory@.len() > 0,
    ensures
        (final(gear).left_hand, final(gear).right_hand, final(gear).inventory@) == after_gear_keys(
            old(gear).left_hand,
            old(gear).right_hand,
            old(gear).inventory@,
            cycle,
            swap,
            trigger,
            torch,
        ),
        r.0 == (trigger && lights_sage(
            after_moves(old(gear).left_hand, old(gear).right_hand, old(gear).inventory@, cycle, swap).1,
        )),
        r.1 == (torch && lights_sage(
            after_moves(old(gear).left_hand, old(gear).right_hand, old(gear).inventory@, cycle, swap).0,
        )),
{
    if cycle {
        gear.cycle();
    }
    if swap {
        gear.swap();
    }
    let mut lit_right = false;
    let mut lit_left = false;
    if trigger {
        lit_right = gear.right_hand.set_trigger();
    }
    if torch {
        lit_left = gear.left_hand.set_trigger();
    }
    (lit_right, lit_left)
}

} // verus!
