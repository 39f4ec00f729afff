use unhaunter::behavior::component::RoomState;
use unhaunter::behavior::{State, Util};
use unhaunter::board::{BoardPosition, RoomDB};
use unhaunter::game::level::{collect_layout, opens_van, pick_spawn, start_level};
use unhaunter::game::InteractionExecutionType;
use unhaunter::ghost_events::{doors_in_room, lights_in_room};
use unhaunter::ghost::{accepts_target, is_unhaunted};
use unhaunter::board::{CollisionField, CollisionFieldData};
use unhaunter::player::{interact_in_rooms, InteractionOutcome, SpriteChoice};

fn bp(x: i64, y: i64) -> BoardPosition {
    BoardPosition { x, y, z: 0 }
}

#[test]
fn room_database_reads_back_writes() {
    let mut db = RoomDB::new();
    assert_eq!(db.room_of(&bp(0, 0)), None);
    db.insert_tile(bp(0, 0), "kitchen".to_string());
    db.insert_tile(bp(1, 0), "kitchen".to_string());
    db.insert_tile(bp(0, 0), "hall".to_string());
    assert_eq!(db.room_of(&bp(0, 0)), Some("hall".to_string()));
    assert_eq!(db.room_of(&bp(1, 0)), Some("kitchen".to_string()));
    db.insert_state("kitchen".to_string(), State::Off);
    assert_eq!(db.state_of(&"kitchen".to_string()), Some(State::Off));
    assert!(db.update_state(&"kitchen".to_string(), State::On));
    assert_eq!(db.state_of(&"kitchen".to_string()), Some(State::On));
    assert!(!db.update_state(&"garage".to_string(), State::On));
    assert_eq!(db.state_of(&"garage".to_string()), None);
    db.clear();
    assert_eq!(db.room_of(&bp(1, 0)), None);
}

#[test]
fn level_layout_from_tiles() {
    let tiles = vec![
        (bp(0, 0), Util::PlayerSpawn),
        (bp(5, 5), Util::GhostSpawn),
        (bp(1, 1), Util::RoomDef("hall".to_string())),
        (bp(2, 1), Util::RoomDef("hall".to_string())),
        (bp(9, 9), Util::Van),
        (bp(3, 3), Util::NoUtil),
        (bp(0, 1), Util::PlayerSpawn),
    ];
    let layout = collect_layout(&tiles);
    assert_eq!(layout.player_spawn_points, vec![bp(0, 0), bp(0, 1)]);
    assert_eq!(layout.ghost_spawn_points, vec![bp(5, 5)]);
    assert_eq!(layout.van_entry_points, vec![bp(9, 9)]);
    assert_eq!(layout.rooms.room_of(&bp(2, 1)), Some("hall".to_string()));
    assert_eq!(layout.rooms.state_of(&"hall".to_string()), Some(State::Off));
    assert_eq!(layout.rooms.room_of(&bp(3, 3)), None);
    let start = start_level(&layout, true);
    assert!(!start.open_van);
    assert!(layout.player_spawn_points.contains(&start.player_spawn));
    assert_eq!(start.ghost_spawn, bp(5, 5));
    assert_eq!(start.evidences.to_vec(), start.ghost_type.evidences().to_vec());
    assert_eq!(start.evidences.len(), 5);
    assert!(layout.van_entry_points.contains(&pick_spawn(&layout.van_entry_points)));
}

#[test]
fn switches_set_their_room() {
    let mut db = RoomDB::new();
    db.insert_tile(bp(4, 5), "hall".to_string());
    db.insert_state("hall".to_string(), State::Off);
    let switch = vec![
        SpriteChoice { tileset: "t".to_string(), tileuid: 1, state: State::Off },
        SpriteChoice { tileset: "t".to_string(), tileuid: 2, state: State::On },
    ];
    let rs = Some(RoomState { room_delta: bp(-1, 1) });
    let ts = "t".to_string();
    let r = interact_in_rooms(&mut db, false, &switch, &ts, 1, bp(5, 4), rs, InteractionExecutionType::ChangeState);
    assert_eq!(r, InteractionOutcome::Switched { candidate: 1, room_state: Some(State::On) });
    assert_eq!(db.state_of(&"hall".to_string()), Some(State::On));
    // a lamp of the room follows the room's state
    let lamp = vec![
        SpriteChoice { tileset: "l".to_string(), tileuid: 7, state: State::Off },
        SpriteChoice { tileset: "l".to_string(), tileuid: 8, state: State::On },
    ];
    let lt = "l".to_string();
    let r = interact_in_rooms(&mut db, false, &lamp, &lt, 7, bp(5, 4), rs, InteractionExecutionType::ReadRoomState);
    assert_eq!(r, InteractionOutcome::Switched { candidate: 1, room_state: None });
    let r = interact_in_rooms(&mut db, false, &lamp, &lt, 8, bp(5, 4), rs, InteractionExecutionType::ReadRoomState);
    assert_eq!(r, InteractionOutcome::Unchanged);
    assert_eq!(db.state_of(&"hall".to_string()), Some(State::On));
}

#[test]
fn slammable_doors() {
    let mut db = RoomDB::new();
    db.insert_tile(bp(0, 0), "hall".to_string());
    db.insert_tile(bp(1, 0), "hall".to_string());
    db.insert_tile(bp(2, 0), "attic".to_string());
    let doors = vec![(bp(1, 0), false), (bp(0, 0), true), (bp(2, 0), false), (bp(0, 0), false)];
    assert_eq!(doors_in_room(&db, &bp(0, 0), &doors), vec![0, 3]);
    assert_eq!(doors_in_room(&db, &bp(7, 7), &doors), Vec::<usize>::new());
}

#[test]
fn flickering_lights() {
    let mut db = RoomDB::new();
    db.insert_tile(bp(0, 0), "hall".to_string());
    db.insert_tile(bp(1, 0), "hall".to_string());
    db.insert_tile(bp(2, 0), "attic".to_string());
    let lights = vec![(bp(1, 0), true), (bp(0, 0), false), (bp(2, 0), true), (bp(0, 0), true), (bp(5, 5), true)];
    assert_eq!(lights_in_room(&db, &bp(1, 0), &lights), vec![0, 3]);
    assert_eq!(lights_in_room(&db, &bp(2, 0), &lights), vec![2]);
    assert_eq!(lights_in_room(&db, &bp(7, 7), &lights), Vec::<usize>::new());
}

#[test]
fn van_opens_next_to_the_player() {
    let p = bp(0, 0);
    // (3, 2) is sqrt(13) away: less than 4
    assert!(opens_van(&p, &vec![bp(9, 9), bp(3, 2)], true));
    assert!(!opens_van(&p, &vec![bp(9, 9), bp(3, 2)], false));
    // (4, 0) is exactly 4 away: not less than 4
    assert!(!opens_van(&p, &vec![bp(4, 0), bp(-3, -3)], true));
    assert!(!opens_van(&p, &vec![], true));
    assert!(opens_van(&p, &vec![bp(0, 0)], true));
    assert!(opens_van(&bp(i64::MAX, 0), &vec![bp(i64::MIN, 0), bp(i64::MAX - 1, 2)], true));
}

#[test]
fn ghost_destinations_and_leaving() {
    let mut db = RoomDB::new();
    db.insert_tile(bp(0, 0), "hall".to_string());
    db.insert_tile(bp(1, 0), "hall".to_string());
    let mut field = CollisionField::new();
    field.insert(bp(0, 0), CollisionFieldData { player_free: true, ghost_free: true, see_through: true });
    field.insert(bp(1, 0), CollisionFieldData { player_free: false, ghost_free: false, see_through: false });
    field.insert(bp(5, 5), CollisionFieldData { player_free: true, ghost_free: true, see_through: true });
    assert!(accepts_target(&db, &field, &bp(0, 0)));
    // a wall of the room
    assert!(!accepts_target(&db, &field, &bp(1, 0)));
    // free, but in no room
    assert!(!accepts_target(&db, &field, &bp(5, 5)));
    db.insert_tile(bp(2, 0), "hall".to_string());
    // in a room, but with no collision data
    assert!(!accepts_target(&db, &field, &bp(2, 0)));
    assert!(!is_unhaunted(100));
    assert!(is_unhaunted(101));
    assert!(!is_unhaunted(-5));
}
