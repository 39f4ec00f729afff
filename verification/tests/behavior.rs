use unhaunter::behavior::component::{
    Interactive, LayerProperty, NpcHelpDialog, RoomState,
};
use unhaunter::behavior::{
    Behavior, Class, Orientation, Properties, SpriteConfig, SpriteConfigError, State,
    TileComponent, Util,
};
use unhaunter::board::BoardPosition;
use unhaunter::text::TextError;

fn cfg(class: &str, state: Option<&str>, orientation: Option<&str>) -> SpriteConfig {
    SpriteConfig::try_from_tiled(
        Some(class),
        Some("wooden"),
        orientation,
        state,
        "tiles".to_string(),
        7,
    )
    .unwrap()
}

#[test]
fn class_serialization() {
    let c = Class::Breaker;
    let ct = c.to_text().unwrap();
    assert_eq!(ct, "Breaker");
    let d = Class::from_text(Some(&ct)).unwrap();
    assert_eq!(d, c);
}

#[test]
fn state_serialization() {
    let c = State::On;
    let ct = c.to_text().unwrap();
    assert_eq!(ct, "On");
    let d = State::from_text(Some(&ct)).unwrap();
    assert_eq!(d, c);
}

#[test]
fn text_defaults_and_none_names() {
    assert_eq!(Class::from_text(None), Ok(Class::NoClass));
    assert_eq!(Orientation::from_text(None), Ok(Orientation::NoOrientation));
    assert_eq!(State::from_text(None), Ok(State::NoState));
    assert_eq!(Class::NoClass.to_text().unwrap(), "None");
    assert_eq!(Class::from_text(Some("None")), Ok(Class::NoClass));
    assert_eq!(Orientation::from_text(Some("XAxis")), Ok(Orientation::XAxis));
    assert_eq!(State::from_text(Some("Minimum")), Ok(State::Minimum));
}

#[test]
fn text_errors() {
    assert_eq!(Class::from_text(Some("Castle")), Err(TextError::UnknownName));
    assert_eq!(State::from_text(Some("on")), Err(TextError::UnknownName));
    assert_eq!(Class::from_text(Some("Wall\"")), Err(TextError::InvalidJson));
    assert_eq!(Class::from_text(Some("Wa\\ll")), Err(TextError::InvalidJson));
    assert_eq!(Class::from_text(Some("Wa\nll")), Err(TextError::InvalidJson));
    assert_eq!(Orientation::from_text(Some("\tXAxis")), Err(TextError::InvalidJson));
}

#[test]
fn text_goes_through_json_escapes() {
    // The text is the body of a JSON string: escapes are decoded first.
    assert_eq!(Class::from_text(Some("Bre\\u0061ker")), Ok(Class::Breaker));
    assert_eq!(Orientation::from_text(Some("Y\\u0041xis")), Ok(Orientation::YAxis));
}

#[test]
fn every_name_round_trips() {
    let classes = [
        Class::Floor, Class::Wall, Class::LowWall, Class::Door, Class::Switch,
        Class::RoomSwitch, Class::Breaker, Class::Doorway, Class::Decor, Class::Item,
        Class::Furniture, Class::PlayerSpawn, Class::GhostSpawn, Class::VanEntry,
        Class::RoomDef, Class::WallLamp, Class::FloorLamp, Class::TableLamp,
        Class::WallDecor, Class::CeilingLight, Class::StreetLight, Class::Appliance,
        Class::Van, Class::Window, Class::InvisibleWall, Class::CornerWall, Class::NPC,
        Class::FakeGhost, Class::FakeBreach, Class::NoClass,
    ];
    for c in classes {
        let t = c.to_text().unwrap();
        assert_eq!(Class::from_text(Some(&t)), Ok(c));
        assert_eq!(Class::from_name(&t), Some(c));
    }
    for s in [
        State::On, State::Off, State::Open, State::Closed, State::Full, State::Partial,
        State::Minimum, State::NoState,
    ] {
        assert_eq!(State::from_text(Some(&s.to_text().unwrap())), Ok(s));
    }
    for o in [
        Orientation::XAxis, Orientation::YAxis, Orientation::Both, Orientation::NoOrientation,
    ] {
        assert_eq!(Orientation::from_text(Some(&o.to_text().unwrap())), Ok(o));
    }
}

#[test]
fn orientation_flip() {
    let mut o = Orientation::XAxis;
    o.flip();
    assert_eq!(o, Orientation::YAxis);
    o.flip();
    assert_eq!(o, Orientation::XAxis);
    let mut b = Orientation::Both;
    b.flip();
    assert_eq!(b, Orientation::Both);
}

#[test]
fn sprite_config_from_tiled() {
    let c = SpriteConfig::try_from_tiled(
        Some("Door"),
        None,
        Some("XAxis"),
        Some("Closed"),
        "house".to_string(),
        42,
    )
    .unwrap();
    assert_eq!(c.state, State::Closed);
    assert_eq!(c.key_tuid(), ("house".to_string(), 42));
    let key = c.key_cvo();
    assert_eq!(key.class, Class::Door);
    assert_eq!(key.variant, "house:42");
    assert_eq!(key.orientation, Orientation::XAxis);
    assert_eq!(c.key_cvo(), SpriteConfig::from_tiled(Some("Door"), None, Some("XAxis"), Some("Closed"), "house".to_string(), 42).key_cvo());
}

#[test]
fn sprite_config_errors_name_the_attribute() {
    let e = SpriteConfig::try_from_tiled(Some("Tower"), None, None, None, "t".to_string(), 1);
    assert_eq!(e.unwrap_err(), SpriteConfigError::Class(TextError::UnknownName));
    let e = SpriteConfig::try_from_tiled(Some("Door"), None, Some("Z"), Some("Ajar"), "t".to_string(), 1);
    assert_eq!(e.unwrap_err(), SpriteConfigError::Orientation(TextError::UnknownName));
    let e = SpriteConfig::try_from_tiled(None, None, None, Some("Ajar"), "t".to_string(), 1);
    assert_eq!(e.unwrap_err(), SpriteConfigError::State(TextError::UnknownName));
    assert!(SpriteConfig::checked_from_tiled(None, None, None, Some("Ajar"), "t".to_string(), 1).is_none());
    assert!(SpriteConfig::checked_from_tiled(None, None, None, None, "t".to_string(), 1).is_some());
}

#[test]
fn properties_of_classes() {
    let b = Behavior::from_config(cfg("Door", Some("Closed"), Some("XAxis")));
    assert!(b.p.movement.player_collision);
    assert_eq!(b.p.display.global_z, 15);
    let b = Behavior::from_config(cfg("Door", Some("Open"), Some("XAxis")));
    assert!(!b.p.movement.player_collision);

    let w = Behavior::from_config(cfg("Wall", Some("Full"), None));
    assert!(w.p.light.opaque && w.p.movement.player_collision && w.p.movement.ghost_collision);
    assert_eq!(w.p.display.global_z, -50);
    assert_eq!(w._temp_heat_capacity(), 10000);
    assert_eq!(w._temp_heat_conductivity(), (1, 1_000_000));

    let f = Behavior::from_config(cfg("Floor", None, None));
    assert!(f.p.movement.walkable);
    assert_eq!(f.p.display.global_z, -350);
    assert_eq!(f._temp_heat_capacity(), 110);
    assert_eq!(f._temp_heat_conductivity(), (10_000, 100));

    let lamp = Behavior::from_config(cfg("CeilingLight", Some("On"), None));
    assert!(lamp.p.light.emits_light);
    assert_eq!(lamp.p.light.emission_power, 70);
    assert_eq!(lamp.p.light.heat_coef, -2);
    assert!(lamp.p.display.disable);

    let street = Behavior::from_config(cfg("StreetLight", Some("Off"), None));
    assert!(street.p.light.emits_light);
    assert_eq!(street.p.light.heat_coef, -6);

    let room = Behavior::from_config(cfg("RoomDef", None, None));
    assert_eq!(room.p.util, Util::RoomDef("wooden".to_string()));
    assert!(room.p.display.disable);

    let none = Behavior::from_config(cfg("None", None, None));
    assert_eq!(none.p, Properties::default());
}

#[test]
fn set_properties_keeps_other_fields() {
    let mut p = Properties::default();
    p.light.heat_coef = 3;
    p.flip = true;
    cfg("FloorLamp", Some("On"), None).set_properties(&mut p);
    assert_eq!(p.light.heat_coef, 3);
    assert!(p.flip);
    assert_eq!(p.light.emission_power, 60);
    assert!(p.light.emits_light);
}

#[test]
fn behavior_flip_and_queries() {
    let mut b = Behavior::from_config(cfg("Door", Some("Open"), Some("XAxis")));
    let before = b.clone();
    b.flip(false);
    assert_eq!(b, before);
    b.flip(true);
    assert!(b.p.flip);
    assert_eq!(b.key_cvo().orientation, Orientation::XAxis);
    b.flip(true);
    assert!(b.p.flip);
    b.flip(false);
    assert_eq!(b, before);
    assert_eq!(b.state(), State::Open);
    assert!(!b.is_npc());
    assert!(Behavior::from_config(cfg("VanEntry", None, None)).is_van_entry());
    assert!(Behavior::from_config(cfg("NPC", None, None)).is_npc());
}

#[test]
fn occlusion_follows_opacity() {
    let w = Behavior::from_config(cfg("Wall", None, Some("YAxis")));
    assert_eq!(w.obsolete_occlusion_type(), Orientation::YAxis);
    let d = Behavior::from_config(cfg("Door", None, Some("YAxis")));
    assert_eq!(d.obsolete_occlusion_type(), Orientation::NoOrientation);
}

#[test]
fn interactive_sounds_and_control_point() {
    let i = Interactive::new("on.ogg", "off.ogg");
    assert_eq!(i.on_activate_sound_file, "on.ogg");
    let open = Behavior::from_config(cfg("Door", Some("Open"), Some("XAxis")));
    let closed = Behavior::from_config(cfg("Door", Some("Closed"), Some("YAxis")));
    assert_eq!(i.sound_for_moving_into_state(&open), "on.ogg");
    assert_eq!(i.sound_for_moving_into_state(&closed), "off.ogg");
    assert_eq!(i.control_point_delta(&open), (0, -25, 0));
    assert_eq!(i.control_point_delta(&closed), (25, 0, 0));
    let switch = Behavior::from_config(cfg("Switch", Some("Off"), Some("XAxis")));
    assert_eq!(i.control_point_delta(&switch), (0, 0, 0));
}

#[test]
fn room_state_deltas() {
    assert_eq!(RoomState::new().room_delta, BoardPosition { x: 0, y: 0, z: 0 });
    assert_eq!(
        RoomState::new_for_room(&Orientation::YAxis).room_delta,
        BoardPosition { x: -1, y: 1, z: 0 }
    );
    assert_eq!(
        RoomState::new_for_room(&Orientation::Both).room_delta,
        BoardPosition { x: 0, y: 0, z: 0 }
    );
}

#[test]
fn npc_dialog_from_layer_properties() {
    let props = vec![
        ("NPC:bob:dialog".to_string(), LayerProperty::Other),
        ("NPC:ann:dialog".to_string(), LayerProperty::Text("Hello there".to_string())),
    ];
    assert_eq!(NpcHelpDialog::new("NPC", "ann", &props).dialog, "Hello there");
    assert_eq!(NpcHelpDialog::new("NPC", "bob", &props).dialog, "");
    assert_eq!(NpcHelpDialog::new("NPC", "eve", &props).dialog, "");
}

#[test]
fn components_by_class() {
    let props = vec![("NPC:wooden:dialog".to_string(), LayerProperty::Text("Hi".to_string()))];
    let floor = cfg("Floor", None, None).components(&props);
    assert_eq!(floor.len(), 2);
    assert!(matches!(floor[0], TileComponent::Ground(_)));
    assert!(matches!(floor[1], TileComponent::UVSurface(_)));
    let npc = cfg("NPC", None, None).components(&props);
    assert_eq!(npc.len(), 2);
    match &npc[0] {
        TileComponent::NpcHelpDialog(d) => assert_eq!(d.dialog, "Hi"),
        _ => panic!("expected a dialog"),
    }
    let room_switch = cfg("RoomSwitch", Some("On"), Some("XAxis")).components(&props);
    match &room_switch[1] {
        TileComponent::RoomState(s) => assert_eq!(s.room_delta, BoardPosition { x: -1, y: 1, z: 0 }),
        _ => panic!("expected a room state"),
    }
    assert!(cfg("Decor", None, None).components(&props).is_empty());
}

#[test]
fn required_states() {
    assert_eq!(cfg("Wall", None, None)._required_states(), vec![State::Full, State::Partial, State::Minimum]);
    assert_eq!(cfg("Door", None, None)._required_states(), vec![State::Open, State::Closed]);
    assert_eq!(cfg("Breaker", None, None)._required_states(), vec![State::On, State::Off]);
    assert_eq!(cfg("Floor", None, None)._required_states(), vec![State::NoState]);
}
