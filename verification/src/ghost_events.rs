//! The things a ghost does to the house near the player: slamming doors
//! and making lights flicker.

use vstd::prelude::*;

use crate::board::{BoardPosition, RoomDB};
use crate::random::random_below;

verus! {

/// An event the ghost causes.
#[derive(Debug, Clone, Copy, PartialEq, Eq, Structural)]
pub enum GhostEvent {
    DoorSlam,
    LightFlicker,
}

impl GhostEvent {
    /// The event for a roll of a ten-sided die (`0..10`): a door slams on a
    /// zero, lights flicker otherwise.
    pub open spec fn for_roll(roll: u8) -> GhostEvent {
        if roll == 0 {
            GhostEvent::DoorSlam
        } else {
            GhostEvent::LightFlicker
        }
    }

    /// Returns the event for a roll of a ten-sided die.
    pub fn from_roll(roll: u8) -> (r: GhostEvent)
        ensures
            r == GhostEvent::for_roll(roll),
    {
        if roll == 0 {
            GhostEvent::DoorSlam
        } else {
            GhostEvent::LightFlicker
        }
    }

    /// Rolls the die and returns the event: one time in ten a door slams.
    pub fn roll() -> (r: GhostEvent)
        ensures
            exists|roll: u8| roll < 10 && r == GhostEvent::for_roll(roll),
    {
        let roll = random_below(10) as u8;
        GhostEvent::from_roll(roll)
    }
}

/// How many of the rolls `0..n` slam a door.
pub open spec fn door_slam_rolls(n: nat) -> nat
    decreases n,
{
    if n == 0 {
        0
    } else {
        door_slam_rolls((n - 1) as nat) + if GhostEvent::for_roll((n - 1) as u8) is DoorSlam {
            1nat
        } else {
            0nat
        }
    }
}

/// One roll in ten slams a door; the nine others make lights flicker.
pub proof fn lemma_one_in_ten_slams()
    ensures
        door_slam_rolls(10) == 1,
{
    reveal_with_fuel(door_slam_rolls, 11);
}

/// Picks one of `n` candidates at random (a door to slam); `None` when
/// there is none.
pub fn pick_candidate(n: usize) -> (r: Option<usize>)
    ensures
        n == 0 <==> r is None,
        r matches Some(i) ==> i < n,
{
    if n == 0 {
        None
    } else {
        Some(random_below(n))
    }
}


/// The positions in `doors` (tile, blocks the player) of the open doors on
/// tiles of room `room`, in order.
pub open spec fn open_doors_in(
    tiles: Map<BoardPosition, Seq<char>>,
    room: Seq<char>,
    doors: Seq<(BoardPosition, bool)>,
) -> Seq<usize>
    decreases doors.len(),
{
    if doors.len() == 0 {
        Seq::empty()
    } else {
        let rest = open_doors_in(tiles, room, doors.drop_last());
        let d = doors.last();
        if tiles.dom().contains(d.0) && tiles[d.0] == room && !d.1 {
            rest.push((doors.len() - 1) as usize)
        } else {
            rest
        }
    }
}

/// The doors a ghost can slam near a player on tile `player_pos`: the open
/// doors of the player's room; none when the player is in no room.
pub fn doors_in_room(rooms: &RoomDB, player_pos: &BoardPosition, doors: &Vec<(BoardPosition, bool)>) -> (r:
    Vec<usize>)
    requires
        rooms.wf(),
    ensures
        r@ == if rooms.tiles().dom().contains(*player_pos) {
            open_doors_in(rooms.tiles(), rooms.tiles()[*player_pos], doors@)
        } else {
            Seq::empty()
        },
{
    let mut r: Vec<usize> = Vec::new();
    let player_room = match rooms.room_of(player_pos) {
        Some(name) => name,
        None => return r,
    };
    let n = doors.len();
    let mut i: usize = 0;
    while i < n
        invariant
            n == doors@.len(),
            i <= n,
            rooms.wf(),
            rooms.tiles().dom().contains(*player_pos),
            player_room@ == rooms.tiles()[*player_pos],
            r@ == open_doors_in(rooms.tiles(), player_room@, doors@.subrange(0, i as int)),
        decreases n - i,
    {
        let ghost prefix = doors@.subrange(0, i as int + 1);
        assert(prefix.drop_last() =~= doors@.subrange(0, i as int));
        assert(prefix.last() == doors@[i as int]);
        let (pos, blocks) = doors[i];
        if !blocks {
            match rooms.room_of(&pos) {
                Some(name) => {
                    if name == player_room {
                        r.push(i);
                    }
                },
                None => {},
            }
        }
        i = i + 1;
    }
    assert(doors@.subrange(0, n as int) =~= doors@);
    r
}

/// The positions in `lights` (tile, can give light) of the lights that can
/// give light on tiles of room `room`, in order.
pub open spec fn lights_in(
    tiles: Map<BoardPosition, Seq<char>>,
    room: Seq<char>,
    lights: Seq<(BoardPosition, bool)>,
) -> Seq<usize>
    decreases lights.len(),
{
    if lights.len() == 0 {
        Seq::empty()
    } else {
        let rest = lights_in(tiles, room, lights.drop_last());
        let d = lights.last();
        if tiles.dom().contains(d.0) && tiles[d.0] == room && d.1 {
            rest.push((lights.len() - 1) as usize)
        } else {
            rest
        }
    }
}

/// The lights a ghost can make flicker near a player on tile `player_pos`:
/// the lights of the player's room that can give light; none when the
/// player is in no room.
pub fn lights_in_room(rooms: &RoomDB, player_pos: &BoardPosition, lights: &Vec<(BoardPosition, bool)>) -> (r:
    Vec<usize>)
    requires
        rooms.wf(),
    ensures
        r@ == if rooms.tiles().dom().contains(*player_pos) {
            lights_in(rooms.tiles(), rooms.tiles()[*player_pos], lights@)
        } else {
            Seq::empty()
        },
{
    let mut r: Vec<usize> = Vec::new();
    let player_room = match rooms.room_of(player_pos) {
        Some(name) => name,
        None => return r,
    };
    let n = lights.len();
    let mut i: usize = 0;
    while i < n
        invariant
            n == lights@.len(),
            i <= n,
            rooms.wf(),
            rooms.tiles().dom().contains(*player_pos),
            player_room@ == rooms.tiles()[*player_pos],
            r@ == lights_in(rooms.tiles(), player_room@, lights@.subrange(0, i as int)),
        decreases n - i,
    {
        let ghost prefix = lights@.subrange(0, i as int + 1);
        assert(prefix.drop_last() =~= lights@.subrange(0, i as int));
        assert(prefix.last() == lights@[i as int]);
        let (pos, lit) = lights[i];
        if lit {
            match rooms.room_of(&pos) {
                Some(name) => {
                    if name == player_room {
                        r.push(i);
                    }
                },
                None => {},
            }
        }
        i = i + 1;
    }
    assert(lights@.subrange(0, n as int) =~= lights@);
    r
}

} // verus!
