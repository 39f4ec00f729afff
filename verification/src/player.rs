//! The player: which frames of the sprite sheet show each walking
//! direction and stepping through them, and what interacting with an object
//! of the map does.

use vstd::prelude::*;

use crate::behavior::component::RoomState;
use crate::behavior::{Behavior, SpriteCVOKey, State};
use crate::board::{BoardPosition, RoomDB};
use crate::game::InteractionExecutionType;

verus! {

/// One of the eight directions the character can face.
#[derive(Debug, Clone, Copy, PartialEq, Eq, Structural)]
pub enum CharacterAnimationDirection {
    NN,
    NW,
    WW,
    SW,
    SS,
    SE,
    EE,
    NE,
}

impl CharacterAnimationDirection {
    /// The direction of a movement whose components, once the movement is
    /// scaled to unit length, round to `dx` and `dy`; a movement with no
    /// clear direction faces east, or south when only `dx` is zero.
    pub open spec fn from_rounded(dx: i32, dy: i32) -> CharacterAnimationDirection {
        if dx == 1 {
            if dy == 1 {
                CharacterAnimationDirection::NE
            } else if dy == -1 {
                CharacterAnimationDirection::SE
            } else {
                CharacterAnimationDirection::EE
            }
        } else if dx == 0 {
            if dy == 1 {
                CharacterAnimationDirection::NN
            } else {
                CharacterAnimationDirection::SS
            }
        } else if dx == -1 {
            if dy == 1 {
                CharacterAnimationDirection::NW
            } else if dy == -1 {
                CharacterAnimationDirection::SW
            } else {
                CharacterAnimationDirection::WW
            }
        } else {
            CharacterAnimationDirection::EE
        }
    }

    /// Returns the direction of a movement whose unit-length components
    /// round to `dx` and `dy`.
    pub fn from_dir(dx: i32, dy: i32) -> (r: CharacterAnimationDirection)
        ensures
            r == CharacterAnimationDirection::from_rounded(dx, dy),
    {
        match dx {
            1 => match dy {
                1 => CharacterAnimationDirection::NE,
                -1 => CharacterAnimationDirection::SE,
                _ => CharacterAnimationDirection::EE,
            },
            0 => match dy {
                1 => CharacterAnimationDirection::NN,
                -1 => CharacterAnimationDirection::SS,
                _ => CharacterAnimationDirection::SS,
            },
            -1 => match dy {
                1 => CharacterAnimationDirection::NW,
                -1 => CharacterAnimationDirection::SW,
                _ => CharacterAnimationDirection::WW,
            },
            _ => CharacterAnimationDirection::EE,
        }
    }

    /// The unit step of the direction on the map, as (x, y) with `y`
    /// growing to the north.
    pub open spec fn unit_step(self) -> (int, int) {
        match self {
            CharacterAnimationDirection::NN => (0, 1),
            CharacterAnimationDirection::NW => (-1, 1),
            CharacterAnimationDirection::WW => (-1, 0),
            CharacterAnimationDirection::SW => (-1, -1),
            CharacterAnimationDirection::SS => (0, -1),
            CharacterAnimationDirection::SE => (1, -1),
            CharacterAnimationDirection::EE => (1, 0),
            CharacterAnimationDirection::NE => (1, 1),
        }
    }

    /// Offset of the direction's first frame in the sprite sheet.
    pub open spec fn delta_of(self) -> usize {
        match self {
            CharacterAnimationDirection::NN => 0,
            CharacterAnimationDirection::NW => 1,
            CharacterAnimationDirection::WW => 2,
            CharacterAnimationDirection::SW => 3,
            CharacterAnimationDirection::SS => 16,
            CharacterAnimationDirection::SE => 17,
            CharacterAnimationDirection::EE => 18,
            CharacterAnimationDirection::NE => 19,
        }
    }

    /// Returns the offset of the direction's first frame in the sprite sheet.
    pub fn to_delta_idx(self) -> (r: usize)
        ensures
            r == self.delta_of(),
    {
        match self {
            CharacterAnimationDirection::NN => 0,
            CharacterAnimationDirection::NW => 1,
            CharacterAnimationDirection::WW => 2,
            CharacterAnimationDirection::SW => 3,
            CharacterAnimationDirection::SS => 16,
            CharacterAnimationDirection::SE => 17,
            CharacterAnimationDirection::EE => 18,
            CharacterAnimationDirection::NE => 19,
        }
    }
}

/// Whether the character stands or walks.
#[derive(Debug, Clone, Copy, PartialEq, Eq, Structural)]
pub enum CharacterAnimationState {
    Standing,
    Walking,
}

impl CharacterAnimationState {
    /// Offset of the state's frames in the sprite sheet.
    pub open spec fn delta_of(self) -> usize {
        match self {
            CharacterAnimationState::Standing => 32,
            CharacterAnimationState::Walking => 0,
        }
    }

    /// Returns the offset of the state's frames in the sprite sheet.
    pub fn to_delta_idx(self) -> (r: usize)
        ensures
            r == self.delta_of(),
    {
        match self {
            CharacterAnimationState::Standing => 32,
            CharacterAnimationState::Walking => 0,
        }
    }
}

/// What the character's sprite shows: a state and a direction.
#[derive(Debug, Clone, Copy, PartialEq, Eq, Structural)]
pub struct CharacterAnimation {
    pub state: CharacterAnimationState,
    pub dir: CharacterAnimationDirection,
}

impl CharacterAnimation {
    /// The animation of a character that walks when `walking`, facing the
    /// direction whose unit-length components round to `dx` and `dy`.
    pub fn from_dir(walking: bool, dx: i32, dy: i32) -> (r: CharacterAnimation)
        ensures
            r.state == if walking {
                CharacterAnimationState::Walking
            } else {
                CharacterAnimationState::Standing
            },
            r.dir == CharacterAnimationDirection::from_rounded(dx, dy),
    {
        let state = if walking {
            CharacterAnimationState::Walking
        } else {
            CharacterAnimationState::Standing
        };
        let dir = CharacterAnimationDirection::from_dir(dx, dy);
        CharacterAnimation { state, dir }
    }

    /// The frames of the animation: the first frame and the three below it
    /// in the sheet, four columns apart.
    pub open spec fn frames_of(self) -> Seq<usize> {
        let i = (self.state.delta_of() + self.dir.delta_of()) as usize;
        seq![i, (i + 4) as usize, (i + 8) as usize, (i + 12) as usize]
    }

    /// Returns the frames of the animation in the order they are played.
    pub fn to_vec(self) -> (r: Vec<usize>)
        ensures
            r@ == self.frames_of(),
    {
        let i = self.state.to_delta_idx() + self.dir.to_delta_idx();
        let r = vec![i, i + 4, i + 8, i + 12];
        assert(r@ =~= self.frames_of());
        r
    }
}

/// The frames of every animation are four distinct frames of the 64-frame
/// character sheet, and two different animations share no frame.
pub proof fn lemma_animation_frames(a: CharacterAnimation, b: CharacterAnimation)
    ensures
        forall|k: int| 0 <= k < 4 ==> #[trigger] a.frames_of()[k] < 64,
        forall|k: int, l: int|
            0 <= k < l < 4 ==> #[trigger] a.frames_of()[k] != #[trigger] a.frames_of()[l],
        a != b ==> forall|k: int, l: int|
            0 <= k < 4 && 0 <= l < 4 ==> #[trigger] a.frames_of()[k] != #[trigger] b.frames_of()[l],
{
}

/// Steps through the frames of an animation, one frame each time its timer
/// finishes a period.
#[derive(Debug, Clone)]
pub struct AnimationTimer {
    frames: Vec<usize>,
    idx: usize,
}

impl AnimationTimer {
    /// The frames played, in order.
    pub closed spec fn frames_of(self) -> Seq<usize> {
        self.frames@
    }

    /// The position of the frame shown now.
    pub closed spec fn index_of(self) -> usize {
        self.idx
    }

    /// An animation over `frames`, at the first frame.
    pub fn from_range(frames: Vec<usize>) -> (r: AnimationTimer)
        ensures
            r.frames_of() == frames@,
            r.index_of() == 0,
    {
        AnimationTimer { frames, idx: 0 }
    }

    /// Plays `frames` from now on, keeping the position.
    pub fn set_range(&mut self, frames: Vec<usize>)
        ensures
            final(self).frames_of() == frames@,
            final(self).index_of() == old(self).index_of(),
    {
        self.frames = frames;
    }

    /// When the timer has just finished a period, moves to the next frame,
    /// wrapping to the first, and returns it; otherwise nothing changes.
    pub fn tick(&mut self, just_finished: bool) -> (r: Option<usize>)
        requires
            just_finished ==> old(self).frames_of().len() > 0,
        ensures
            final(self).frames_of() == old(self).frames_of(),
            !just_finished ==> r is None && final(self).index_of() == old(self).index_of(),
            just_finished ==> final(self).index_of() == (old(self).index_of() + 1) % (old(
                self,
            ).frames_of().len() as int) && r == Some(
                old(self).frames_of()[final(self).index_of() as int],
            ),
    {
        if !just_finished {
            return None;
        }
        let len = self.frames.len();
        let next = (self.idx % len + 1) % len;
        proof {
            vstd::arithmetic::div_mod::lemma_add_mod_noop_right(1, self.idx as int, len as int);
        }
        self.idx = next;
        Some(self.frames[self.idx])
    }
}

/// Ticking as many times as there are frames comes back to the same frame:
/// the position after `k` finished periods is the start plus `k`, modulo
/// the number of frames.
pub proof fn lemma_tick_cycle(start: int, len: int, k: nat)
    requires
        len > 0,
        0 <= start < len,
    ensures
        tick_n(start, len, k) == (start + k) % len,
        tick_n(start, len, len as nat) == start,
    decreases k,
{
    lemma_tick_n(start, len, k);
    lemma_tick_n(start, len, len as nat);
    vstd::arithmetic::div_mod::lemma_mod_add_multiples_vanish(start, len);
    vstd::arithmetic::div_mod::lemma_small_mod(start as nat, len as nat);
}

/// The position after `k` finished periods from position `start` over
/// `len` frames.
pub open spec fn tick_n(start: int, len: int, k: nat) -> int
    decreases k,
{
    if k == 0 {
        start
    } else {
        (tick_n(start, len, (k - 1) as nat) + 1) % len
    }
}

proof fn lemma_tick_n(start: int, len: int, k: nat)
    requires
        len > 0,
        0 <= start < len,
    ensures
        tick_n(start, len, k) == (start + k) % len,
    decreases k,
{
    if k == 0 {
        vstd::arithmetic::div_mod::lemma_small_mod(start as nat, len as nat);
    } else {
        lemma_tick_n(start, len, (k - 1) as nat);
        vstd::arithmetic::div_mod::lemma_add_mod_noop_right(1, start + k - 1, len);
    }
}


/// A sprite that can stand for an interactive object: its tileset name,
/// its identifier in the tileset and the state it shows.
#[derive(Debug, Clone)]
pub struct SpriteChoice {
    pub tileset: String,
    pub tileuid: u32,
    pub state: State,
}

/// The character faces the way it moves: for each of the eight unit moves
/// (`dx`, `dy` in `-1..=1`, not both zero) the direction read from the move
/// steps by exactly that move, so the eight moves face eight different
/// ways. A move with no direction faces south.
pub proof fn lemma_facing_follows_move(dx: i32, dy: i32)
    ensures
        -1 <= dx <= 1 && -1 <= dy <= 1 && !(dx == 0 && dy == 0) ==> CharacterAnimationDirection::from_rounded(
            dx,
            dy,
        ).unit_step() == (dx as int, dy as int),
        dx == 0 && dy == 0 ==> CharacterAnimationDirection::from_rounded(dx, dy)
            == CharacterAnimationDirection::SS,
{
}

/// Two sprite keys name the same group: same class, variant and
/// orientation.
pub open spec fn same_cvo(a: SpriteCVOKey, b: SpriteCVOKey) -> bool {
    a.class == b.class && a.variant@ == b.variant@ && a.orientation == b.orientation
}

/// The sprite of a behaviour as a candidate for an interaction.
pub open spec fn choice_of(b: Behavior) -> SpriteChoice {
    SpriteChoice {
        tileset: b.config().tileset_of(),
        tileuid: b.config().tileuid_of(),
        state: b.config().state_of(),
    }
}

/// The sprites of `sprites` in the group `key`, in order.
pub open spec fn group_of(sprites: Seq<Behavior>, key: SpriteCVOKey) -> Seq<SpriteChoice>
    decreases sprites.len(),
{
    if sprites.len() == 0 {
        Seq::empty()
    } else {
        let rest = group_of(sprites.drop_last(), key);
        if same_cvo(sprites.last().config().cvo_key_of(), key) {
            rest.push(choice_of(sprites.last()))
        } else {
            rest
        }
    }
}

/// The sprites of the map's tilesets, `sprites`, that show the same object
/// as `key` (same class, variant and orientation), in order: the sprites an
/// interaction can switch between.
pub fn group_candidates(sprites: &Vec<Behavior>, key: &SpriteCVOKey) -> (r: Vec<SpriteChoice>)
    ensures
        r@ == group_of(sprites@, *key),
{
    let mut r: Vec<SpriteChoice> = Vec::new();
    let n = sprites.len();
    let mut i: usize = 0;
    while i < n
        invariant
            n == sprites@.len(),
            i <= n,
            r@ == group_of(sprites@.subrange(0, i as int), *key),
        decreases n - i,
    {
        let ghost prefix = sprites@.subrange(0, i as int + 1);
        assert(prefix.drop_last() =~= sprites@.subrange(0, i as int));
        assert(prefix.last() == sprites@[i as int]);
        let k = sprites[i].key_cvo();
        if k.class == key.class && k.orientation == key.orientation && k.variant == key.variant {
            let (tileset, tileuid) = sprites[i].key_tuid();
            let state = sprites[i].state();
            r.push(SpriteChoice { tileset, tileuid, state });
        }
        i = i + 1;
    }
    assert(sprites@.subrange(0, n as int) =~= sprites@);
    r
}

/// What an interaction with an object leads to.
#[derive(Debug, Clone, Copy, PartialEq, Eq, Structural)]
pub enum InteractionOutcome {
    /// The object is the entry of the van: the van screen opens.
    EnterVan,
    /// The object now shows the candidate sprite at this position; the
    /// state of its room becomes `room_state` when given.
    Switched { candidate: usize, room_state: Option<State> },
    /// Nothing changes.
    Unchanged,
}

/// Whether candidate `c` can replace the sprite `(tileset, tileuid)` shown
/// now: it is another sprite, and when the object takes the state of its
/// room and that room has a state, it shows that state.
pub open spec fn eligible(
    c: SpriteChoice,
    tileset: Seq<char>,
    tileuid: u32,
    ietype: InteractionExecutionType,
    room: Option<Option<State>>,
) -> bool {
    let mismatched = match room {
        Some(Some(rs)) => ietype == InteractionExecutionType::ReadRoomState && c.state != rs,
        _ => false,
    };
    !(c.tileset@ == tileset && c.tileuid == tileuid) && !mismatched
}

/// The first position at or after `start` of an eligible candidate.
pub open spec fn first_eligible_from(
    cands: Seq<SpriteChoice>,
    start: nat,
    tileset: Seq<char>,
    tileuid: u32,
    ietype: InteractionExecutionType,
    room: Option<Option<State>>,
) -> Option<nat>
    decreases cands.len() - start,
{
    if start >= cands.len() {
        None
    } else if eligible(cands[start as int], tileset, tileuid, ietype, room) {
        Some(start)
    } else {
        first_eligible_from(cands, start + 1, tileset, tileuid, ietype, room)
    }
}

/// The outcome of interacting with an object that shows the sprite
/// `(tileset, tileuid)`, given the sprites of the same object (`cands`) and
/// its room: `None` when it has no room state, `Some(None)` when its room
/// has no state yet, `Some(Some(s))` when the room is in state `s`. The van
/// entry opens the van when used. Otherwise the first eligible candidate is
/// shown; using the object sets its room, when it has a state, to the state
/// shown.
pub open spec fn interaction_outcome(
    is_van_entry: bool,
    cands: Seq<SpriteChoice>,
    tileset: Seq<char>,
    tileuid: u32,
    ietype: InteractionExecutionType,
    room: Option<Option<State>>,
) -> InteractionOutcome {
    if is_van_entry {
        if ietype == InteractionExecutionType::ChangeState {
            InteractionOutcome::EnterVan
        } else {
            InteractionOutcome::Unchanged
        }
    } else {
        match first_eligible_from(cands, 0, tileset, tileuid, ietype, room) {
            Some(i) => InteractionOutcome::Switched {
                candidate: i as usize,
                room_state: match room {
                    Some(Some(_)) => if ietype == InteractionExecutionType::ChangeState {
                        Some(cands[i as int].state)
                    } else {
                        None
                    },
                    _ => None,
                },
            },
            None => InteractionOutcome::Unchanged,
        }
    }
}

/// Decides what interacting with an object does; see
/// `interaction_outcome`.
pub fn execute_interaction(
    is_van_entry: bool,
    cands: &Vec<SpriteChoice>,
    tileset: &String,
    tileuid: u32,
    ietype: InteractionExecutionType,
    room: Option<Option<State>>,
) -> (r: InteractionOutcome)
    ensures
        r == interaction_outcome(is_van_entry, cands@, tileset@, tileuid, ietype, room),
{
    if is_van_entry {
        if ietype != InteractionExecutionType::ChangeState {
            return InteractionOutcome::Unchanged;
        }
        return InteractionOutcome::EnterVan;
    }
    let n = cands.len();
    let mut i: usize = 0;
    while i < n
        invariant
            !is_van_entry,
            n == cands@.len(),
            i <= n,
            first_eligible_from(cands@, 0, tileset@, tileuid, ietype, room) == first_eligible_from(
                cands@,
                i as nat,
                tileset@,
                tileuid,
                ietype,
                room,
            ),
        decreases n - i,
    {
        let c = &cands[i];
        assert(*c == cands@[i as int]);
        let same = c.tileuid == tileuid && c.tileset == *tileset;
        let mismatched_room = match room {
            Some(Some(rs)) => ietype == InteractionExecutionType::ReadRoomState && c.state != rs,
            _ => false,
        };
        if !same && !mismatched_room {
            assert(eligible(cands@[i as int], tileset@, tileuid, ietype, room));
            assert(first_eligible_from(cands@, i as nat, tileset@, tileuid, ietype, room) == Some(
                i as nat,
            ));
            let room_state = match room {
                Some(Some(_)) => if ietype == InteractionExecutionType::ChangeState {
                    Some(c.state)
                } else {
                    None
                },
                _ => None,
            };
            return InteractionOutcome::Switched { candidate: i, room_state };
        }
        i = i + 1;
    }
    InteractionOutcome::Unchanged
}

/// The tile whose room a room-bound object reports to: its own tile moved
/// by the object's room delta.
pub open spec fn room_tile(item_pos: BoardPosition, rs: RoomState) -> BoardPosition {
    BoardPosition {
        x: (item_pos.x + rs.room_delta.x) as i64,
        y: (item_pos.y + rs.room_delta.y) as i64,
        z: (item_pos.z + rs.room_delta.z) as i64,
    }
}

/// The name of the room of tile `p`, or the empty name when it has none.
pub open spec fn room_name_at(tiles: Map<BoardPosition, Seq<char>>, p: BoardPosition) -> Seq<char> {
    if tiles.dom().contains(p) {
        tiles[p]
    } else {
        Seq::empty()
    }
}

/// The room an object reads from the room database: `None` for an object
/// without room state, else the state of the room it reports to, if any.
pub open spec fn room_view(
    rooms: RoomDB,
    item_pos: BoardPosition,
    room_state: Option<RoomState>,
) -> Option<Option<State>> {
    match room_state {
        None => None,
        Some(rs) => {
            let name = room_name_at(rooms.tiles(), room_tile(item_pos, rs));
            Some(
                if rooms.states().dom().contains(name) {
                    Some(rooms.states()[name])
                } else {
                    None
                },
            )
        },
    }
}

/// Interacts with the object on tile `item_pos` against the room database:
/// the outcome is `interaction_outcome` for the room the object reports to,
/// and using a room-bound object sets that room's state to the state now
/// shown.
pub fn interact_in_rooms(
    rooms: &mut RoomDB,
    is_van_entry: bool,
    cands: &Vec<SpriteChoice>,
    tileset: &String,
    tileuid: u32,
    item_pos: BoardPosition,
    room_state: Option<RoomState>,
    ietype: InteractionExecutionType,
) -> (r: InteractionOutcome)
    requires
        old(rooms).wf(),
        room_state matches Some(rs) ==> i64::MIN <= item_pos.x + rs.room_delta.x <= i64::MAX
            && i64::MIN <= item_pos.y + rs.room_delta.y <= i64::MAX && i64::MIN <= item_pos.z
            + rs.room_delta.z <= i64::MAX,
    ensures
        final(rooms).wf(),
        r == interaction_outcome(
            is_van_entry,
            cands@,
            tileset@,
            tileuid,
            ietype,
            room_view(*old(rooms), item_pos, room_state),
        ),
        final(rooms).tiles() == old(rooms).tiles(),
        final(rooms).states() == match (r, room_state) {
            (InteractionOutcome::Switched { room_state: Some(st), .. }, Some(rs)) => old(
                rooms,
            ).states().insert(room_name_at(old(rooms).tiles(), room_tile(item_pos, rs)), st),
            _ => old(rooms).states(),
        },
{
    if is_van_entry {
        return execute_interaction(is_van_entry, cands, tileset, tileuid, ietype, None);
    }
    match room_state {
        None => execute_interaction(is_van_entry, cands, tileset, tileuid, ietype, None),
        Some(rs) => {
            let room_pos = BoardPosition {
                x: item_pos.x + rs.room_delta.x,
                y: item_pos.y + rs.room_delta.y,
                z: item_pos.z + rs.room_delta.z,
            };
            let name = match rooms.room_of(&room_pos) {
                Some(n) => n,
                None => String::new(),
            };
            let current = rooms.state_of(&name);
            let r = execute_interaction(is_van_entry, cands, tileset, tileuid, ietype, Some(current));
            match r {
                InteractionOutcome::Switched { room_state: Some(st), .. } => {
                    rooms.update_state(&name, st);
                },
                _ => {},
            }
            r
        },
    }
}

/// Using an object with two sprites switches between them: from either
/// sprite, using it shows the other one.
pub proof fn lemma_two_sprites_toggle(a: SpriteChoice, b: SpriteChoice, room: Option<Option<State>>)
    requires
        !(a.tileset@ == b.tileset@ && a.tileuid == b.tileuid),
    ensures
        interaction_outcome(
            false,
            seq![a, b],
            a.tileset@,
            a.tileuid,
            InteractionExecutionType::ChangeState,
            room,
        ) matches InteractionOutcome::Switched { candidate: 1, .. },
        interaction_outcome(
            false,
            seq![a, b],
            b.tileset@,
            b.tileuid,
            InteractionExecutionType::ChangeState,
            room,
        ) matches InteractionOutcome::Switched { candidate: 0, .. },
{
    let s = seq![a, b];
    let ct = InteractionExecutionType::ChangeState;
    assert(s[0] == a);
    assert(s[1] == b);
    assert(!eligible(a, a.tileset@, a.tileuid, ct, room));
    assert(eligible(b, a.tileset@, a.tileuid, ct, room));
    assert(first_eligible_from(s, 1, a.tileset@, a.tileuid, ct, room) == Some(1nat));
    assert(first_eligible_from(s, 0, a.tileset@, a.tileuid, ct, room) == Some(1nat));
    assert(eligible(a, b.tileset@, b.tileuid, ct, room));
    assert(first_eligible_from(s, 0, b.tileset@, b.tileuid, ct, room) == Some(0nat));
}

/// Reading the room's state shows the sprite of the object that is in that
/// state, when there is one other than the sprite shown.
pub proof fn lemma_read_room_state(
    cands: Seq<SpriteChoice>,
    tileset: Seq<char>,
    tileuid: u32,
    rs: State,
)
    requires
        cands.len() <= usize::MAX,
    ensures
        interaction_outcome(
            false,
            cands,
            tileset,
            tileuid,
            InteractionExecutionType::ReadRoomState,
            Some(Some(rs)),
        ) matches InteractionOutcome::Switched { candidate: i, room_state: None } ==> cands[i as int].state
            == rs,
{
    lemma_first_eligible_is_eligible(
        cands,
        0,
        tileset,
        tileuid,
        InteractionExecutionType::ReadRoomState,
        Some(Some(rs)),
    );
}

proof fn lemma_first_eligible_is_eligible(
    cands: Seq<SpriteChoice>,
    start: nat,
    tileset: Seq<char>,
    tileuid: u32,
    ietype: InteractionExecutionType,
    room: Option<Option<State>>,
)
    ensures
        first_eligible_from(cands, start, tileset, tileuid, ietype, room) matches Some(i) ==> start
            <= i < cands.len() && eligible(cands[i as int], tileset, tileuid, ietype, room),
    decreases cands.len() - start,
{
    if start < cands.len() && !eligible(cands[start as int], tileset, tileuid, ietype, room) {
        lemma_first_eligible_is_eligible(cands, start + 1, tileset, tileuid, ietype, room);
    }
}

} // verus!
