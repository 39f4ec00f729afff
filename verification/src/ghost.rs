//! The ghost haunting a map.

use vstd::prelude::*;

use crate::board::{BoardPosition, CollisionField, RoomDB};
use crate::ghost_definitions::GhostType;
use crate::random::random_below;

verus! {

/// The ghost type at position `idx` of the list of all ghost types: the
/// type a new ghost gets when the roll over that list comes up `idx`.
pub fn ghost_type_at(idx: usize) -> (r: GhostType)
    requires
        idx < GhostType::all_seq().len(),
    ensures
        r == GhostType::all_seq()[idx as int],
{
    let ghost_types = GhostType::all();
    ghost_types[idx]
}

/// Picks the type of a new ghost at random among all the ghost types: a
/// roll over the list of all ghost types, read by `ghost_type_at`.
pub fn random_ghost_type() -> (r: GhostType)
    ensures
        GhostType::all_seq().contains(r),
{
    let idx = random_below(44);
    let r = ghost_type_at(idx);
    assert(GhostType::all_seq()[idx as int] == r);
    r
}

/// Whether the ghost takes tile `target` as its next destination: the tile
/// belongs to a room and the ghost may move through it (a tile with no
/// collision data is not free).
pub fn accepts_target(rooms: &RoomDB, field: &CollisionField, target: &BoardPosition) -> (r: bool)
    requires
        rooms.wf(),
        field.wf(),
    ensures
        r == (rooms.tiles().dom().contains(*target) && field.cells().dom().contains(*target)
            && field.cells()[*target].ghost_free),
{
    if rooms.room_of(target).is_none() {
        return false;
    }
    match field.get(target) {
        Some(data) => data.ghost_free,
        None => false,
    }
}

/// Whether the ghost leaves the house for good: it has been hit by
/// repellent more than 100 times.
pub fn is_unhaunted(repellent_hits: i64) -> (r: bool)
    ensures
        r == (repellent_hits > 100),
{
    repellent_hits > 100
}

} // verus!
