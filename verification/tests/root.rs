use unhaunter::root::{
    find_tmx_files, finish_loading, sort_paths, text_le_exec, init_maps, is_map_file, map_from_header, GameState,
    MapHeader, Maps, State,
};

fn header(class: Option<&str>, name: Option<&str>) -> Option<MapHeader> {
    Some(MapHeader {
        classname: class.map(|s| s.to_string()),
        display_name: name.map(|s| s.to_string()),
    })
}

#[test]
fn default_states() {
    assert_eq!(State::default(), State::Loading);
    assert_eq!(GameState::default(), GameState::NoGameState);
    assert_eq!(finish_loading(), State::MainMenu);
}

#[test]
fn maps_from_headers() {
    let m = map_from_header(
        "assets/maps/house.tmx".to_string(),
        header(Some("UnhaunterMap1"), Some("123 Acorn Lane")),
    )
    .unwrap();
    assert_eq!(m.name, "123 Acorn Lane");
    assert_eq!(m.path, "assets/maps/house.tmx");
    let m = map_from_header(
        "assets/maps/school.tmx".to_string(),
        header(Some("UnhaunterMap1"), None),
    )
    .unwrap();
    assert_eq!(m.name, "Unnamed (school.tmx)");
    assert!(map_from_header("a.tmx".to_string(), header(Some("OtherMap"), Some("x"))).is_none());
    assert!(map_from_header("a.tmx".to_string(), header(None, Some("x"))).is_none());
    assert!(map_from_header("a.tmx".to_string(), None).is_none());
}

#[test]
fn init_maps_keeps_order_and_skips_others() {
    let mut maps = Maps::default();
    let found = vec![
        ("assets/maps/b.tmx".to_string(), header(Some("UnhaunterMap1"), Some("B"))),
        ("assets/maps/c.tmx".to_string(), None),
        ("assets/maps/a.tmx".to_string(), header(Some("UnhaunterMap1"), None)),
    ];
    init_maps(&mut maps, &found);
    assert_eq!(maps.maps.len(), 2);
    assert_eq!(maps.maps[0].name, "B");
    assert_eq!(maps.maps[1].name, "Unnamed (a.tmx)");
}

#[test]
fn map_files_by_extension() {
    assert!(is_map_file("assets/maps/house.tmx", true));
    assert!(!is_map_file("assets/maps/house.tmx", false));
    assert!(!is_map_file("assets/maps/house.tsx", true));
    assert!(!is_map_file("assets/maps/house.TMX", true));
    assert!(is_map_file("assets/maps/sub/dir/x.tmx", true));
    let entries = vec![
        ("assets/maps/z.tmx".to_string(), true),
        ("assets/maps/readme.txt".to_string(), true),
        ("assets/maps/dir.tmx".to_string(), false),
        ("assets/maps/a.tmx".to_string(), true),
    ];
    assert_eq!(
        find_tmx_files(&entries),
        vec!["assets/maps/a.tmx".to_string(), "assets/maps/z.tmx".to_string()]
    );
}

#[test]
fn map_paths_sorted() {
    let paths = vec![
        "b".to_string(),
        "a/z.tmx".to_string(),
        "B".to_string(),
        "a".to_string(),
        "\u{e9}".to_string(),
        "b".to_string(),
        "".to_string(),
    ];
    let mut expected = paths.clone();
    expected.sort();
    assert_eq!(sort_paths(paths), expected);
    assert!(text_le_exec("ab", "abc"));
    assert!(!text_le_exec("abc", "ab"));
    assert!(text_le_exec("Z", "a"));
    assert!(text_le_exec("same", "same"));
}
