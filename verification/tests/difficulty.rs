use unhaunter::difficulty::{Difficulty, TabContents};

#[test]
fn levels_in_order_and_wrapping() {
    let all = Difficulty::all();
    assert_eq!(all.len(), 16);
    assert_eq!(all[0], Difficulty::Apprentice);
    assert_eq!(all[15], Difficulty::Legend);
    assert_eq!(Difficulty::Legend.next(), Difficulty::Apprentice);
    assert_eq!(Difficulty::Apprentice.prev(), Difficulty::Legend);
    for d in all.iter() {
        assert_eq!(d.next().prev(), *d);
        let mut e = *d;
        for _ in 0..16 {
            e = e.next();
        }
        assert_eq!(e, *d);
    }
}

#[test]
fn settings_of_the_extremes() {
    assert_eq!(Difficulty::Apprentice.ghost_speed(), 800);
    assert_eq!(Difficulty::Legend.ghost_speed(), 2500);
    assert_eq!(Difficulty::Apprentice.difficulty_name(), "Apprentice");
    assert_eq!(Difficulty::UnhaunterMaster.difficulty_name(), "Unhaunter Master");
    assert!(Difficulty::Apprentice.van_auto_open());
    assert_eq!(Difficulty::Apprentice.default_van_tab(), TabContents::Loadout);
    let s = Difficulty::Exorcist.create_difficulty_struct();
    assert_eq!(s.difficulty_name, "Exorcist");
    assert_eq!(s.ghost_speed, Difficulty::Exorcist.ghost_speed());
    assert_eq!(s.max_inventory_slots, Difficulty::Exorcist.max_inventory_slots());
}

#[test]
fn harder_levels_are_harder() {
    let all = Difficulty::all();
    for w in all.windows(2) {
        assert!(w[0].ghost_speed() <= w[1].ghost_speed());
        assert!(w[0].starting_sanity() >= w[1].starting_sanity());
        assert!(w[0].difficulty_score_multiplier() <= w[1].difficulty_score_multiplier());
    }
}
