//! Setting up a level: where players, the ghost and the van are, which
//! room each tile belongs to, and who haunts the house.

use vstd::prelude::*;

use crate::behavior::{State, Util};
use crate::board::{BoardPosition, RoomDB};
use crate::components::ghost_influence::InfluenceType;
use crate::ghost::random_ghost_type;
use crate::ghost_definitions::{EvidenceSet, GhostType};
use crate::random::{random_below, shuffle_items};

verus! {

/// The positions of the tiles of `tiles`, in order, whose role is
/// `wanted`.
pub open spec fn positions_with(tiles: Seq<(BoardPosition, Util)>, wanted: Util) -> Seq<BoardPosition>
    decreases tiles.len(),
{
    if tiles.len() == 0 {
        Seq::empty()
    } else {
        let rest = positions_with(tiles.drop_last(), wanted);
        if tiles.last().1 == wanted {
            rest.push(tiles.last().0)
        } else {
            rest
        }
    }
}

/// The room of each tile, as the room definitions of `tiles` give them:
/// a later definition of a tile wins.
pub open spec fn room_tiles_of(tiles: Seq<(BoardPosition, Util)>) -> Map<BoardPosition, Seq<char>>
    decreases tiles.len(),
{
    if tiles.len() == 0 {
        Map::empty()
    } else {
        let rest = room_tiles_of(tiles.drop_last());
        match tiles.last().1 {
            Util::RoomDef(name) => rest.insert(tiles.last().0, name@),
            _ => rest,
        }
    }
}

/// Every room defined in `tiles`, with its lights off.
pub open spec fn room_states_of(tiles: Seq<(BoardPosition, Util)>) -> Map<Seq<char>, State>
    decreases tiles.len(),
{
    if tiles.len() == 0 {
        Map::empty()
    } else {
        let rest = room_states_of(tiles.drop_last());
        match tiles.last().1 {
            Util::RoomDef(name) => rest.insert(name@, State::Off),
            _ => rest,
        }
    }
}

/// What the tiles of a level say about it.
#[derive(Debug, Clone)]
pub struct LevelLayout {
    pub player_spawn_points: Vec<BoardPosition>,
    pub ghost_spawn_points: Vec<BoardPosition>,
    pub van_entry_points: Vec<BoardPosition>,
    pub rooms: RoomDB,
}

/// Reads the layout of a level from its tiles, given by position and role:
/// the spawn points of players and of the ghost, the van entries, and the
/// rooms, each with its lights off.
pub fn collect_layout(tiles: &Vec<(BoardPosition, Util)>) -> (r: LevelLayout)
    ensures
        r.player_spawn_points@ == positions_with(tiles@, Util::PlayerSpawn),
        r.ghost_spawn_points@ == positions_with(tiles@, Util::GhostSpawn),
        r.van_entry_points@ == positions_with(tiles@, Util::Van),
        r.rooms.wf(),
        r.rooms.tiles() == room_tiles_of(tiles@),
        r.rooms.states() == room_states_of(tiles@),
{
    let mut players: Vec<BoardPosition> = Vec::new();
    let mut ghosts: Vec<BoardPosition> = Vec::new();
    let mut vans: Vec<BoardPosition> = Vec::new();
    let mut rooms = RoomDB::new();
    let n = tiles.len();
    let mut i: usize = 0;
    while i < n
        invariant
            n == tiles@.len(),
            i <= n,
            players@ == positions_with(tiles@.subrange(0, i as int), Util::PlayerSpawn),
            ghosts@ == positions_with(tiles@.subrange(0, i as int), Util::GhostSpawn),
            vans@ == positions_with(tiles@.subrange(0, i as int), Util::Van),
            rooms.wf(),
            rooms.tiles() == room_tiles_of(tiles@.subrange(0, i as int)),
            rooms.states() == room_states_of(tiles@.subrange(0, i as int)),
        decreases n - i,
    {
        let ghost prefix = tiles@.subrange(0, i as int + 1);
        assert(prefix.drop_last() =~= tiles@.subrange(0, i as int));
        assert(prefix.last() == tiles@[i as int]);
        let pos = tiles[i].0;
        match &tiles[i].1 {
            Util::PlayerSpawn => players.push(pos),
            Util::GhostSpawn => ghosts.push(pos),
            Util::Van => vans.push(pos),
            Util::RoomDef(name) => {
                rooms.insert_tile(pos, name.clone());
                rooms.insert_state(name.clone(), State::Off);
            },
            Util::NoUtil => {},
        }
        i = i + 1;
    }
    assert(tiles@.subrange(0, n as int) =~= tiles@);
    LevelLayout {
        player_spawn_points: players,
        ghost_spawn_points: ghosts,
        van_entry_points: vans,
        rooms,
    }
}

/// Who starts where when a level starts, and who haunts it.
#[derive(Debug, Clone)]
pub struct LevelStart {
    pub player_spawn: BoardPosition,
    pub ghost_spawn: BoardPosition,
    pub ghost_type: GhostType,
    /// The evidence the ghost leaves, to be found in the level.
    pub evidences: EvidenceSet,
    /// Whether the van opens at once: the player starts next to it.
    pub open_van: bool,
}

/// The squared distance between two tiles.
pub open spec fn distance2(a: BoardPosition, b: BoardPosition) -> int {
    (a.x - b.x) * (a.x - b.x) + (a.y - b.y) * (a.y - b.y) + (a.z - b.z) * (a.z - b.z)
}

/// Whether the van opens at once on a level start: the difficulty allows
/// it and some van entry lies less than 4 tiles away from the player.
pub open spec fn van_opens(player: BoardPosition, vans: Seq<BoardPosition>, auto_open: bool) -> bool {
    auto_open && exists|i: int| 0 <= i < vans.len() && distance2(#[trigger] vans[i], player) < 16
}

/// Whether `a` lies less than 4 tiles away from `b`.
fn near_van(a: &BoardPosition, b: &BoardPosition) -> (r: bool)
    ensures
        r == (distance2(*a, *b) < 16),
{
    let dx: i128 = a.x as i128 - b.x as i128;
    let dy: i128 = a.y as i128 - b.y as i128;
    let dz: i128 = a.z as i128 - b.z as i128;
    proof {
        lemma_square_at_least(dx as int);
        lemma_square_at_least(dy as int);
        lemma_square_at_least(dz as int);
        assert(dy * dy >= 0 && dz * dz >= 0 && dx * dx >= 0) by (nonlinear_arith);
    }
    if dx <= -4 || dx >= 4 || dy <= -4 || dy >= 4 || dz <= -4 || dz >= 4 {
        return false;
    }
    proof {
        assert(dx * dx <= 9 && dy * dy <= 9 && dz * dz <= 9) by (nonlinear_arith)
            requires
                -4 < dx < 4,
                -4 < dy < 4,
                -4 < dz < 4,
        ;
    }
    dx * dx + dy * dy + dz * dz < 16
}

proof fn lemma_square_at_least(d: int)
    ensures
        (d <= -4 || d >= 4) ==> d * d >= 16,
        d * d >= 0,
{
    assert((d <= -4 || d >= 4) ==> d * d >= 16) by (nonlinear_arith);
    assert(d * d >= 0) by (nonlinear_arith);
}

/// Whether the van opens at once when the player starts on `player`: the
/// difficulty allows it (`auto_open`) and a van entry lies less than 4
/// tiles away.
pub fn opens_van(player: &BoardPosition, vans: &Vec<BoardPosition>, auto_open: bool) -> (r: bool)
    ensures
        r == van_opens(*player, vans@, auto_open),
{
    if !auto_open {
        return false;
    }
    let mut i: usize = 0;
    while i < vans.len()
        invariant
            auto_open,
            i <= vans@.len(),
            forall|k: int| 0 <= k < i ==> distance2(#[trigger] vans@[k], *player) >= 16,
        decreases vans@.len() - i,
    {
        if near_van(&vans[i], player) {
            assert(distance2(vans@[i as int], *player) < 16);
            return true;
        }
        i = i + 1;
    }
    false
}

/// Picks one of the points at random.
pub fn pick_spawn(points: &Vec<BoardPosition>) -> (r: BoardPosition)
    requires
        points@.len() > 0,
    ensures
        points@.contains(r),
{
    let i = random_below(points.len());
    let r = points[i];
    assert(points@[i as int] == r);
    r
}

/// Starts a level: the player starts on one of its player spawn points and
/// the ghost, of a type picked at random, on one of its ghost spawn points,
/// where its breach is; its evidence is what is to be found. The van opens
/// at once when `van_auto_open` (the difficulty's setting) allows it and
/// the player starts next to a van entry.
pub fn start_level(layout: &LevelLayout, van_auto_open: bool) -> (r: LevelStart)
    requires
        layout.player_spawn_points@.len() > 0,
        layout.ghost_spawn_points@.len() > 0,
    ensures
        layout.player_spawn_points@.contains(r.player_spawn),
        layout.ghost_spawn_points@.contains(r.ghost_spawn),
        GhostType::all_seq().contains(r.ghost_type),
        r.evidences@ == r.ghost_type.evidence_set(),
        r.open_van == van_opens(r.player_spawn, layout.van_entry_points@, van_auto_open),
{
    let player_spawn = pick_spawn(&layout.player_spawn_points);
    let ghost_spawn = pick_spawn(&layout.ghost_spawn_points);
    let ghost_type = random_ghost_type();
    let evidences = ghost_type.evidences();
    let open_van = opens_van(&player_spawn, &layout.van_entry_points, van_auto_open);
    LevelStart { player_spawn, ghost_spawn, ghost_type, evidences, open_van }
}

/// The influence given to the object drawn in position `i`: the first
/// object drawn drives the ghost away, the next ones draw it.
pub open spec fn influence_for_draw(i: int) -> InfluenceType {
    if i == 0 {
        InfluenceType::Repulsive
    } else {
        InfluenceType::Attractive
    }
}

/// How many objects get an influence out of `n` movable ones: three, or
/// all of them when there are fewer.
pub open spec fn influenced_count(n: int) -> int {
    if n < 3 {
        n
    } else {
        3
    }
}

/// Gives the ghost influences to the first objects of `drawn`, the movable
/// objects in the order they were drawn: up to three objects, the first
/// repulsive and the others attractive.
pub fn assign_influences(drawn: &Vec<usize>) -> (r: Vec<(usize, InfluenceType)>)
    ensures
        r@.len() == influenced_count(drawn@.len() as int),
        forall|i: int|
            0 <= i < r@.len() ==> #[trigger] r@[i] == (drawn@[i], influence_for_draw(i)),
{
    let n: usize = if drawn.len() < 3 {
        drawn.len()
    } else {
        3
    };
    let mut r: Vec<(usize, InfluenceType)> = Vec::new();
    let mut i: usize = 0;
    while i < n
        invariant
            n == influenced_count(drawn@.len() as int),
            n <= drawn@.len(),
            i <= n,
            r@.len() == i,
            forall|k: int| 0 <= k < i ==> #[trigger] r@[k] == (drawn@[k], influence_for_draw(k)),
        decreases n - i,
    {
        let kind = if i == 0 {
            InfluenceType::Repulsive
        } else {
            InfluenceType::Attractive
        };
        r.push((drawn[i], kind));
        i = i + 1;
    }
    r
}

/// Chooses which movable objects sway the ghost: the objects are drawn in
/// a random order, and up to three of them get an influence, the first one
/// drawn repulsive and the others attractive. Every chosen object is one of
/// `movable`, and when `movable` lists each object once no object is chosen
/// twice.
pub fn pick_influences(movable: &Vec<usize>) -> (r: Vec<(usize, InfluenceType)>)
    ensures
        r@.len() == influenced_count(movable@.len() as int),
        forall|i: int|
            0 <= i < r@.len() ==> movable@.contains(#[trigger] r@[i].0) && r@[i].1
                == influence_for_draw(i),
        movable@.no_duplicates() ==> forall|i: int, j: int|
            0 <= i < r@.len() && 0 <= j < r@.len() && i != j ==> #[trigger] r@[i].0
                != #[trigger] r@[j].0,
{
    let mut drawn = movable.clone();
    assert(drawn@ == movable@);
    shuffle_items(&mut drawn);
    let r = assign_influences(&drawn);
    proof {
        drawn@.to_multiset_ensures();
        movable@.to_multiset_ensures();
        assert forall|i: int| 0 <= i < r@.len() implies movable@.contains(#[trigger] r@[i].0)
            by {
            let x = r@[i].0;
            assert(drawn@[i] == x);
            assert(drawn@.contains(x));
            assert(drawn@.to_multiset().count(x) > 0);
            assert(movable@.to_multiset().count(x) > 0);
        }
        if movable@.no_duplicates() {
            movable@.lemma_multiset_has_no_duplicates();
            drawn@.lemma_multiset_has_no_duplicates_conv();
            assert forall|i: int, j: int|
                0 <= i < r@.len() && 0 <= j < r@.len() && i != j implies #[trigger] r@[i].0
                != #[trigger] r@[j].0 by {
                assert(r@[i].0 == drawn@[i]);
                assert(r@[j].0 == drawn@[j]);
            }
        }
    }
    r
}

} // verus!
