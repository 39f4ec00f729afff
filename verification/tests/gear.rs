use unhaunter::gear::flashlight::{Flashlight, FlashlightStatus};
use unhaunter::gear::playergear::{EquipmentPosition, Hand, PlayerGear};
use unhaunter::gear::quartz::QuartzStoneData;
use unhaunter::gear::repellentflask::{RepellentFlask, FLASK_MAX_QTY};
use unhaunter::gear::sage::{SageBundleData, SageUpdate};
use unhaunter::gear::salt::SaltData;
use unhaunter::gear::switchable::{Photocam, RedTorch, SpiritBox, Thermometer, UVTorch, Videocam};
use unhaunter::gear::ui::keyboard_gear;
use unhaunter::gear::{on_off, Gear, GearKind, GearSpriteID};
use unhaunter::ghost_definitions::GhostType;

#[test]
fn flashlight_cycles_through_settings() {
    let mut f = Flashlight::new();
    assert_eq!(f.get_status(), "Flashlight: OFF");
    f.set_trigger();
    assert_eq!(f.status, FlashlightStatus::Low);
    f.set_trigger();
    f.set_trigger();
    assert_eq!(f.get_status(), "Flashlight: HI");
    f.set_trigger();
    assert_eq!(f.status, FlashlightStatus::Off);
    assert_eq!(FlashlightStatus::High.next(), None);
}

#[test]
fn flashlight_update_counts_frames() {
    let mut f = Flashlight::new();
    for _ in 0..209 {
        f.update();
    }
    assert_eq!(f.frame_counter, 209);
    f.update();
    assert_eq!(f.frame_counter, 0);
    assert!(f.rand < 12);
}

#[test]
fn on_off_labels() {
    assert_eq!(on_off(true), "ON");
    assert_eq!(on_off(false), "OFF");
}

#[test]
fn quartz_cracks_and_shatters() {
    let mut q = QuartzStoneData::new();
    assert!(!q.update(false));
    assert!(q.update(true));
    assert!(q.update(true));
    assert!(q.update(true));
    assert!(q.is_shattered());
    assert!(!q.update(true));
    assert_eq!(q.cracks, 3);
    assert_eq!(q.get_sprite_idx(), GearSpriteID::QuartzStone3);
}

#[test]
fn salt_charges() {
    let mut s = SaltData::new();
    s.set_trigger();
    assert_eq!(s.charges, 3);
    s.set_trigger();
    assert_eq!(s.charges, 3, "a pile is already scheduled");
    assert!(s.update());
    assert!(!s.update());
    for _ in 0..5 {
        s.set_trigger();
        s.update();
    }
    assert_eq!(s.charges, 0);
}

#[test]
fn sage_burns_out() {
    let mut s = SageBundleData::new();
    assert_eq!(s.update(100, true), SageUpdate::Idle);
    assert!(s.set_trigger());
    assert!(!s.set_trigger());
    assert_eq!(s.update(1000, true), SageUpdate::EmitSmoke);
    assert_eq!(s.update(1000, false), SageUpdate::Idle);
    assert_eq!(s.update(4000, true), SageUpdate::BurntOut);
    assert!(!s.is_active);
}

#[test]
fn repellent_flask_fill_and_empty() {
    let mut f = RepellentFlask::new();
    assert_eq!(f.get_status(), "Unhaunter Repellent: Empty\nFlask must be filled on the van");
    assert!(f.can_fill_liquid(GhostType::Kappa));
    f.fill_liquid(GhostType::Kappa);
    assert!(!f.can_fill_liquid(GhostType::Kappa));
    assert!(f.can_fill_liquid(GhostType::Tengu));
    assert_eq!(f.qty, FLASK_MAX_QTY);
    assert_eq!(f.get_status(), "Unhaunter Repellent: \nAnti-Kappa essence\nActivate in ghost room to expel it");
    f.set_trigger();
    assert!(f.active);
    let u = f.update();
    assert!(u.count_use);
    assert_eq!(u.release, Some(GhostType::Kappa));
    assert_eq!(u.record_use(4), 5);
    let u = f.update();
    assert!(!u.count_use);
    assert_eq!(u.record_use(5), 5);
    for _ in 0..300 {
        f.update();
    }
    assert_eq!(f.qty, 0);
    assert!(!f.active);
    assert_eq!(f.liquid_content, None);
}

#[test]
fn player_gear_cycle_and_swap() {
    let mut g = PlayerGear::new();
    assert!(matches!(g.left_hand.kind, GearKind::Flashlight(_)));
    assert!(matches!(g.right_hand.kind, GearKind::Thermometer(_)));
    assert_eq!(g.inventory.len(), 8);
    g.cycle();
    assert!(matches!(g.right_hand.kind, GearKind::EMFMeter(_)));
    assert!(matches!(g.inventory[7].kind, GearKind::Thermometer(_)));
    // the right hand and the eight stowed items form a ring of nine
    for _ in 0..8 {
        g.cycle();
    }
    let h = PlayerGear::new();
    assert_eq!(g.left_hand, h.left_hand);
    assert_eq!(g.right_hand, h.right_hand);
    assert_eq!(g.inventory, h.inventory);
    g.swap();
    assert!(matches!(g.left_hand.kind, GearKind::Thermometer(_)));
    assert!(matches!(g.get_hand(&Hand::Right).kind, GearKind::Flashlight(_)));
}

#[test]
fn player_gear_as_vec_and_next() {
    let g = PlayerGear::new();
    let v = g.as_vec();
    assert_eq!(v.len(), 10);
    assert_eq!(v[0].1, EquipmentPosition::Hand(Hand::Left));
    assert_eq!(v[2].1, EquipmentPosition::Stowed);
    assert!(g.get_next(0).is_some());
    assert!(g.get_next(8).is_none());
}

#[test]
fn craft_repellent_fills_the_flask() {
    let mut g = PlayerGear::new();
    assert!(g.can_craft_repellent(GhostType::Phooka));
    g.craft_repellent(GhostType::Phooka);
    assert!(!g.can_craft_repellent(GhostType::Phooka));
    match g.inventory[7].kind {
        GearKind::RepellentFlask(f) => assert_eq!(f.liquid_content, Some(GhostType::Phooka)),
        _ => panic!("the flask stays in its slot"),
    }
}

#[test]
fn gear_keys() {
    let mut g = PlayerGear::new();
    let lit = keyboard_gear(&mut g, true, true, false, true);
    assert_eq!(lit, (false, false));
    // cycled: EMF in the right hand; swapped: EMF left, flashlight right; torch uses EMF
    assert!(matches!(g.right_hand.kind, GearKind::Flashlight(_)));
    match g.left_hand.kind {
        GearKind::EMFMeter(m) => assert!(m.enabled),
        _ => panic!("EMF meter expected in the left hand"),
    }
    let mut g2 = PlayerGear::new();
    g2.right_hand = Gear::new_from_kind(GearKind::SageBundle(SageBundleData::new()));
    assert_eq!(keyboard_gear(&mut g2, false, false, true, false), (true, false));
    assert_eq!(keyboard_gear(&mut g2, false, false, true, false), (false, false));
}

#[test]
fn gear_names() {
    let t = Gear::new_from_kind(GearKind::Thermometer(Thermometer::new()));
    assert_eq!(t.get_display_name(), "Thermometer");
    assert_eq!(Gear::none().get_display_name(), "");
    let mut empty = Gear::none();
    assert!(!empty.set_trigger());
    assert!(empty.kind.is_none());
}

#[test]
fn switch_statuses() {
    let mut uv = UVTorch::new();
    assert_eq!(uv.get_status(), "UV Torch: OFF\n");
    uv.set_trigger();
    assert_eq!(uv.get_status(), "UV Torch: ON\nBattery: 47%");
    let mut red = RedTorch::new();
    red.set_trigger();
    assert!(red.get_status().ends_with(": ON\nBattery: 40%"));
    let mut cam = Videocam::new();
    cam.set_trigger();
    assert!(cam.get_status().ends_with("NIGHT VISION ON"));
    let mut photo = Photocam::new();
    photo.set_trigger();
    assert!(photo.get_status().ends_with(": ON\nFlashy!"));
    assert!(SpiritBox::new().get_status().ends_with(": OFF\n"));
}

#[test]
fn counted_statuses() {
    let mut q = QuartzStoneData::new();
    assert_eq!(q.get_status(), "Cracks: 0");
    q.update(true);
    q.update(true);
    assert_eq!(q.get_status(), "Cracks: 2");
    q.update(true);
    assert_eq!(q.get_status(), "Shattered");
    let mut s = SaltData::new();
    assert_eq!(s.get_status(), "Charges: 4");
    s.set_trigger();
    assert_eq!(s.get_status(), "Charges: 3");
}

#[test]
fn deploy_and_retrieve_gear() {
    let mut g = PlayerGear::new();
    assert_eq!(g.deploy_gear(false), None);
    let deployed = g.deploy_gear(true).unwrap();
    assert!(matches!(deployed.kind, GearKind::Thermometer(_)));
    assert!(matches!(g.right_hand.kind, GearKind::EMFMeter(_)));
    assert!(g.inventory[7].kind.is_none());
    // the right hand is busy: its gear goes to the empty slot
    assert!(g.retrieve_gear(deployed));
    assert!(matches!(g.right_hand.kind, GearKind::Thermometer(_)));
    assert!(matches!(g.inventory[7].kind, GearKind::EMFMeter(_)));
    // no empty slot left: nothing changes
    let before = g.inventory.clone();
    assert!(!g.retrieve_gear(Gear::new_from_kind(GearKind::Salt(SaltData::new()))));
    assert_eq!(g.inventory, before);
    assert!(matches!(g.right_hand.kind, GearKind::Thermometer(_)));
    // an empty hand takes the gear directly
    g.right_hand = Gear::none();
    assert!(g.retrieve_gear(Gear::new_from_kind(GearKind::Salt(SaltData::new()))));
    assert!(matches!(g.right_hand.kind, GearKind::Salt(_)));
}
