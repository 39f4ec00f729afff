use unhaunter::mainmenu::{item_logic, keyboard, menu_event, Menu, MenuAction, MenuEvent, MenuID, MenuItem};
use unhaunter::manual::{CurrentManualPage, ManualButton, ManualPageObsolete, user_manual_system};
use unhaunter::maphub::difficulty_selection::{
    self, handle_difficulty_selection, DifficultySelectionState,
};
use unhaunter::maphub::map_selection::{self, MapSelectedEvent, MapSelectionState};
use unhaunter::maphub::MapHubState;
use unhaunter::difficulty::Difficulty;
use unhaunter::root::{GameState, State};

#[test]
fn main_menu_items_and_moves() {
    assert_eq!(Menu::items(), vec![MenuID::MapHub, MenuID::Manual, MenuID::Quit]);
    let mut m = Menu::default();
    assert_eq!(m.item_idx(), 0);
    m.next_item();
    assert_eq!(m.selected, MenuID::Manual);
    m.next_item();
    m.next_item();
    assert_eq!(m.selected, MenuID::MapHub);
    m.previous_item();
    assert_eq!(m.selected, MenuID::Quit);
    assert_eq!(Menu::idx_to_item(-1), MenuID::Quit);
    assert_eq!(Menu::idx_to_item(4), MenuID::Manual);
    let options = Menu { selected: MenuID::_Options };
    assert_eq!(options.item_idx(), 0);
}

#[test]
fn main_menu_keys_and_events() {
    let mut m = Menu::default();
    assert_eq!(keyboard(&mut m, false, true, false), None);
    assert_eq!(m.selected, MenuID::Manual);
    assert_eq!(keyboard(&mut m, true, true, true), None);
    assert_eq!(m.selected, MenuID::MapHub);
    assert_eq!(keyboard(&mut m, false, false, true), Some(MenuEvent(MenuID::MapHub)));
    assert_eq!(menu_event(MenuEvent(MenuID::MapHub)), MenuAction::GoTo(State::MapHub));
    assert_eq!(menu_event(MenuEvent(MenuID::Manual)), MenuAction::GoTo(State::Manual));
    assert_eq!(menu_event(MenuEvent(MenuID::Quit)), MenuAction::Exit);
    assert_eq!(menu_event(MenuEvent(MenuID::_Options)), MenuAction::Stay);
    let mut item = MenuItem::new(MenuID::Manual);
    assert!(!item.highlighted);
    item_logic(&mut item, &Menu { selected: MenuID::Manual });
    assert!(item.highlighted);
    item_logic(&mut item, &m);
    assert!(!item.highlighted);
}

#[test]
fn map_selection_wraps_through_go_back() {
    let mut s = MapSelectionState::default();
    let a = map_selection::keyboard(&mut s, 3, true, false, false, false);
    assert_eq!(s.selected_map_idx, 3);
    assert_eq!(a.event, None);
    map_selection::keyboard(&mut s, 3, false, true, false, false);
    assert_eq!(s.selected_map_idx, 0);
    map_selection::keyboard(&mut s, 3, false, true, false, false);
    let a = map_selection::keyboard(&mut s, 3, false, false, true, false);
    assert_eq!(a.event, Some(MapSelectedEvent { map_idx: 1 }));
    assert_eq!(a.next_hub_state, Some(MapHubState::DifficultySelection));
    assert_eq!(a.next_root_state, None);
    s.selected_map_idx = 3;
    let a = map_selection::keyboard(&mut s, 3, false, false, true, false);
    assert_eq!(a.event, None);
    assert_eq!(a.next_root_state, Some(State::MainMenu));
    assert_eq!(a.next_hub_state, Some(MapHubState::NoMapHubState));
    let a = map_selection::keyboard(&mut s, 3, false, false, false, true);
    assert_eq!(a.next_root_state, Some(State::MainMenu));
}

#[test]
fn difficulty_grid_moves() {
    let mut s = DifficultySelectionState {
        selected_difficulty: Difficulty::Apprentice,
        selected_map_idx: 2,
    };
    difficulty_selection::keyboard(&mut s, false, true, false, false, false, false);
    assert_eq!(s.selected_difficulty, Difficulty::LeadResearcher);
    difficulty_selection::keyboard(&mut s, true, false, false, false, false, false);
    assert_eq!(s.selected_difficulty, Difficulty::Apprentice);
    difficulty_selection::keyboard(&mut s, false, false, true, false, false, false);
    assert_eq!(s.selected_difficulty, Difficulty::Legend);
    difficulty_selection::keyboard(&mut s, false, false, false, true, false, false);
    assert_eq!(s.selected_difficulty, Difficulty::Apprentice);
    let a = difficulty_selection::keyboard(&mut s, false, false, false, false, true, false);
    assert!(a.confirmed);
    let a = difficulty_selection::keyboard(&mut s, false, false, false, false, false, true);
    assert_eq!(a.next_hub_state, Some(MapHubState::MapSelection));
    assert_eq!(s.selected_map_idx, 2);
    let (ds, hub) = handle_difficulty_selection(true, &s).unwrap();
    assert_eq!(ds.difficulty_name, "Apprentice");
    assert_eq!(hub, MapHubState::NoMapHubState);
    assert!(handle_difficulty_selection(false, &s).is_none());
}

#[test]
fn manual_navigation() {
    let mut p = CurrentManualPage::default();
    assert!(p.is_first());
    assert_eq!(user_manual_system(&mut p, 3, Some(ManualButton::Previous)), None);
    assert_eq!(p, CurrentManualPage(0, 0));
    user_manual_system(&mut p, 3, Some(ManualButton::Next));
    user_manual_system(&mut p, 3, Some(ManualButton::Next));
    assert!(p.is_last(3));
    user_manual_system(&mut p, 3, Some(ManualButton::Next));
    assert_eq!(p, CurrentManualPage(0, 2));
    assert_eq!(user_manual_system(&mut p, 3, Some(ManualButton::Close)), Some(State::MainMenu));
    assert_eq!(ManualPageObsolete::default().next(), Some(ManualPageObsolete::EssentialControls));
    assert_eq!(ManualPageObsolete::ExpellingGhost.next(), None);
    assert_eq!(ManualPageObsolete::MissionBriefing.previous(), None);
    let _ = GameState::Manual;
}
