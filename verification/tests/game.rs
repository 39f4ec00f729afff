use unhaunter::components::ghost_influence::InfluenceType;
use unhaunter::game::evidence::{EvidenceStatus, StatusColor, TruckButtonState};
use unhaunter::game::{self, roomchanged_event, GameConfig, RoomChangedEvent, SpriteType};
use unhaunter::ghost::{ghost_type_at, random_ghost_type};
use unhaunter::ghost_definitions::{Evidence, GhostType};
use unhaunter::game::level::{assign_influences, pick_influences};
use unhaunter::ghost_events::{pick_candidate, GhostEvent};
use unhaunter::pause;
use unhaunter::behavior::State as SpriteState;
use unhaunter::behavior::{Behavior, SpriteConfig};
use unhaunter::player::group_candidates;
use unhaunter::game::InteractionExecutionType;
use unhaunter::player::{
    execute_interaction, AnimationTimer, CharacterAnimation, CharacterAnimationDirection,
    CharacterAnimationState, InteractionOutcome, SpriteChoice,
};
use unhaunter::root::{GameState, State};
use unhaunter::summary::{self, update_score, Difficulty};

#[test]
fn evidence_status_lines() {
    let s = EvidenceStatus::from_gearkind(Some(Evidence::EMFLevel5), TruckButtonState::Pressed);
    assert_eq!(s.title, "EMF Level 5: ");
    assert_eq!(s.status, "[+] Found\n");
    assert_eq!(s.status_color, StatusColor::Found);
    assert!(s.help_text.starts_with("Some ghosts will register EMF5"));
    let s = EvidenceStatus::from_gearkind(Some(Evidence::SpiritBox), TruckButtonState::Discard);
    assert_eq!(s.status, "[-] Discarded\n");
    assert_eq!(s.status_color, StatusColor::Discarded);
    let s = EvidenceStatus::from_gearkind(None, TruckButtonState::Pressed);
    assert_eq!(s.title, "");
    assert_eq!(s.status, "");
    assert_eq!(s.status_color, StatusColor::Neutral);
    assert_eq!(s.help_text, "No evidence for selected gear.");
}

#[test]
fn game_keys_and_events() {
    assert_eq!(GameConfig::default().player_id, 1);
    assert_eq!(SpriteType::default(), SpriteType::Other);
    assert_eq!(game::keyboard(State::InGame, GameState::NoGameState, true), Some(GameState::Pause));
    assert_eq!(game::keyboard(State::InGame, GameState::Truck, true), None);
    assert_eq!(game::keyboard(State::MainMenu, GameState::NoGameState, true), None);
    assert_eq!(roomchanged_event(RoomChangedEvent::init(true)), Some(GameState::Truck));
    assert_eq!(roomchanged_event(RoomChangedEvent::default()), None);
    assert_eq!(pause::keyboard(GameState::Pause, true, false), (Some(GameState::NoGameState), None));
    assert_eq!(
        pause::keyboard(GameState::Pause, false, true),
        (Some(GameState::NoGameState), Some(State::MainMenu))
    );
    assert_eq!(pause::keyboard(GameState::NoGameState, true, true), (None, None));
    assert_ne!(InfluenceType::Attractive, InfluenceType::Repulsive);
}

#[test]
fn ghost_events_and_types() {
    assert_eq!(GhostEvent::from_roll(0), GhostEvent::DoorSlam);
    assert_eq!(GhostEvent::from_roll(7), GhostEvent::LightFlicker);
    let _ = GhostEvent::roll();
    assert_eq!(pick_candidate(0), None);
    assert!(pick_candidate(3).unwrap() < 3);
    let g = random_ghost_type();
    assert!(GhostType::all().contains(&g));
}

#[test]
fn ghost_type_by_roll() {
    assert_eq!(ghost_type_at(0), GhostType::BeanSidhe);
    assert_eq!(ghost_type_at(1), GhostType::Dullahan);
    assert_eq!(ghost_type_at(4), GhostType::WillOWisp);
    let all = GhostType::all();
    assert_eq!(ghost_type_at(43), all[43]);
}

#[test]
fn animation_frames() {
    assert_eq!(CharacterAnimationDirection::from_dir(1, 1), CharacterAnimationDirection::NE);
    assert_eq!(CharacterAnimationDirection::from_dir(0, 0), CharacterAnimationDirection::SS);
    assert_eq!(CharacterAnimationDirection::from_dir(-1, 0), CharacterAnimationDirection::WW);
    assert_eq!(CharacterAnimationDirection::from_dir(5, 0), CharacterAnimationDirection::EE);
    let a = CharacterAnimation::from_dir(true, -1, -1);
    assert_eq!(a.state, CharacterAnimationState::Walking);
    assert_eq!(a.to_vec(), vec![3, 7, 11, 15]);
    let b = CharacterAnimation::from_dir(false, 1, 0);
    assert_eq!(b.to_vec(), vec![50, 54, 58, 62]);
}

#[test]
fn animation_timer_cycles() {
    let mut t = AnimationTimer::from_range(vec![10, 11, 12]);
    assert_eq!(t.tick(false), None);
    assert_eq!(t.tick(true), Some(11));
    assert_eq!(t.tick(true), Some(12));
    assert_eq!(t.tick(true), Some(10));
    t.set_range(vec![5]);
    assert_eq!(t.tick(true), Some(5));
}

#[test]
fn summary_score_counter() {
    assert_eq!(update_score(0, 5000), 25);
    assert_eq!(update_score(0, 1000), 10);
    assert_eq!(update_score(995, 1000), 1000);
    assert_eq!(update_score(2000, 1000), 1000);
    assert_eq!(update_score(1000, 1000), 1000);
    let mut shown = 0;
    let mut steps = 0;
    while shown != 123_456 {
        shown = update_score(shown, 123_456);
        steps += 1;
        assert!(shown <= 123_456);
    }
    assert!(steps > 1);
    assert_eq!(Difficulty::Insane.get_multiplier(), 220);
    assert_eq!(Difficulty::default(), Difficulty::Normal);
    assert_eq!(summary::keyboard(State::Summary, false, true, false), Some(State::MainMenu));
    assert_eq!(summary::keyboard(State::InGame, true, true, true), None);
}

fn sprite(uid: u32, state: SpriteState) -> SpriteChoice {
    SpriteChoice { tileset: "house".to_string(), tileuid: uid, state }
}

#[test]
fn interacting_with_objects() {
    let door = vec![sprite(1, SpriteState::Open), sprite(2, SpriteState::Closed)];
    let ts = "house".to_string();
    let change = InteractionExecutionType::ChangeState;
    let read = InteractionExecutionType::ReadRoomState;
    assert_eq!(
        execute_interaction(false, &door, &ts, 1, change, None),
        InteractionOutcome::Switched { candidate: 1, room_state: None }
    );
    assert_eq!(
        execute_interaction(false, &door, &ts, 2, change, None),
        InteractionOutcome::Switched { candidate: 0, room_state: None }
    );
    // a switch in a room with a state sets the room's state
    assert_eq!(
        execute_interaction(false, &door, &ts, 1, change, Some(Some(SpriteState::Open))),
        InteractionOutcome::Switched { candidate: 1, room_state: Some(SpriteState::Closed) }
    );
    // reading the room state keeps only a sprite in that state
    assert_eq!(
        execute_interaction(false, &door, &ts, 2, read, Some(Some(SpriteState::Closed))),
        InteractionOutcome::Unchanged
    );
    assert_eq!(
        execute_interaction(false, &door, &ts, 2, read, Some(Some(SpriteState::Open))),
        InteractionOutcome::Switched { candidate: 0, room_state: None }
    );
    assert_eq!(execute_interaction(true, &door, &ts, 1, change, None), InteractionOutcome::EnterVan);
    assert_eq!(execute_interaction(true, &door, &ts, 1, read, None), InteractionOutcome::Unchanged);
    assert_eq!(
        execute_interaction(false, &vec![sprite(1, SpriteState::On)], &ts, 1, change, None),
        InteractionOutcome::Unchanged
    );
}

#[test]
fn influences_for_drawn_objects() {
    assert_eq!(assign_influences(&vec![]), vec![]);
    assert_eq!(assign_influences(&vec![7]), vec![(7, InfluenceType::Repulsive)]);
    assert_eq!(
        assign_influences(&vec![4, 9, 2, 5]),
        vec![(4, InfluenceType::Repulsive), (9, InfluenceType::Attractive), (2, InfluenceType::Attractive)]
    );
    let movable = vec![10, 11, 12, 13, 14];
    let r = pick_influences(&movable);
    assert_eq!(r.len(), 3);
    assert_eq!(r[0].1, InfluenceType::Repulsive);
    assert_eq!(r[1].1, InfluenceType::Attractive);
    assert_eq!(r[2].1, InfluenceType::Attractive);
    for (o, _) in &r {
        assert!(movable.contains(o));
    }
    assert!(r[0].0 != r[1].0 && r[1].0 != r[2].0 && r[0].0 != r[2].0);
    assert_eq!(pick_influences(&vec![3, 8]).len(), 2);
}

#[test]
fn ghost_names_differ() {
    let all = GhostType::all();
    for (i, a) in all.iter().enumerate() {
        assert!(!a.name().is_empty());
        for b in &all[i + 1..] {
            assert_ne!(a.name(), b.name());
        }
    }
}

fn door(variant: &str, orientation: &str, state: &str, uid: u32) -> Behavior {
    Behavior::from_config(SpriteConfig::from_tiled(
        Some("Door"),
        Some(variant),
        Some(orientation),
        Some(state),
        "tiles".to_string(),
        uid,
    ))
}

#[test]
fn sprites_grouped_by_key() {
    let sprites = vec![
        door("wood", "XAxis", "Open", 1),
        door("wood", "YAxis", "Open", 2),
        door("metal", "XAxis", "Open", 3),
        door("wood", "XAxis", "Closed", 4),
    ];
    let key = sprites[0].key_cvo();
    let group = group_candidates(&sprites, &key);
    assert_eq!(group.len(), 2);
    assert_eq!(group[0].tileset, "tiles");
    assert_eq!(group[0].tileuid, 1);
    assert_eq!(group[0].state, SpriteState::Open);
    assert_eq!(group[1].tileset, "tiles");
    assert_eq!(group[1].tileuid, 4);
    assert_eq!(group[1].state, SpriteState::Closed);
    let other = sprites[2].key_cvo();
    assert_eq!(group_candidates(&sprites, &other).len(), 1);
    assert!(group_candidates(&vec![], &key).is_empty());
}
