use unhaunter::behavior::Movement;
use unhaunter::board::{
    build_collision_field, clamp_i64, tiles_bounds, BoardPosition, CollisionField, CollisionFieldData,
    LightFieldSector,
};

#[test]
fn steps_on_the_grid() {
    let p = BoardPosition { x: 3, y: -2, z: 1 };
    assert_eq!(p.left(), BoardPosition { x: 2, y: -2, z: 1 });
    assert_eq!(p.right(), BoardPosition { x: 4, y: -2, z: 1 });
    assert_eq!(p.top(), BoardPosition { x: 3, y: -3, z: 1 });
    assert_eq!(p.bottom(), BoardPosition { x: 3, y: -1, z: 1 });
    assert_eq!(p.left().right(), p);
    assert_eq!(p.top().bottom(), p);
    assert_eq!(BoardPosition::default(), BoardPosition { x: 0, y: 0, z: 0 });
}

#[test]
fn neighbors_square() {
    let p = BoardPosition { x: 0, y: 0, z: 2 };
    let n = p.xy_neighbors(1);
    assert_eq!(n.len(), 9);
    assert_eq!(n[0], BoardPosition { x: -1, y: -1, z: 2 });
    assert_eq!(n[1], BoardPosition { x: -1, y: 0, z: 2 });
    assert_eq!(n[4], p);
    assert_eq!(n[8], BoardPosition { x: 1, y: 1, z: 2 });
    assert_eq!(p.xy_neighbors(0), vec![p]);
    let mut buf = vec![p, p, p];
    p.xy_neighbors_buf(2, &mut buf);
    assert_eq!(buf.len(), 25);
}

#[test]
fn neighbors_clamped_to_the_map() {
    let p = BoardPosition { x: 0, y: 5, z: 0 };
    let mut out = Vec::new();
    p.xy_neighbors_buf_clamped(2, &mut out, 0, 10, 0, 6);
    // x from 0 to 2, y from 3 to 6
    assert_eq!(out.len(), 12);
    assert_eq!(out[0], BoardPosition { x: 0, y: 3, z: 0 });
    assert_eq!(out[11], BoardPosition { x: 2, y: 6, z: 0 });
    // the same tiles, in the same order, as the full square cut to the box
    let full: Vec<BoardPosition> = p
        .xy_neighbors(2)
        .into_iter()
        .filter(|q| 0 <= q.x && q.x <= 10 && 0 <= q.y && q.y <= 6)
        .collect();
    assert_eq!(out, full);
    assert_eq!(clamp_i64(-5, 0, 3), 0);
    assert_eq!(clamp_i64(5, 0, 3), 3);
    assert_eq!(clamp_i64(2, 0, 3), 2);
}

#[test]
fn mini_hash_values() {
    // ((0 + 41) % 61 + (0 * 13 + 47) % 67 + (0 * 29 + 59) % 79) % 109 = 147 % 109
    assert_eq!(BoardPosition { x: 0, y: 0, z: 0 }.mini_hash(), 38);
    // negative coordinates keep Rust's sign of the remainder
    assert_eq!(BoardPosition { x: -100, y: -10, z: -5 }.mini_hash(), (-59 % 61 + -83 % 67 + -86 % 79) % 109);
    for x in -20..20 {
        for y in -20..20 {
            let h = BoardPosition { x, y, z: 1 }.mini_hash();
            assert!((-108..=108).contains(&h));
        }
    }
}

#[test]
fn light_field_sector_store_and_read() {
    let mut s = LightFieldSector::new(-2, 0, 0, 2, 3, 0, 0u32);
    // 5 columns by 4 rows by 1 layer, plus the spare cells
    assert_eq!(s.get(-2, 0, 0), Some(&0));
    s.insert(1, 2, 0, 7);
    assert_eq!(s.get(1, 2, 0), Some(&7));
    assert_eq!(s.get_pos(&BoardPosition { x: 1, y: 2, z: 0 }), Some(&7));
    assert_eq!(s.get(0, 2, 0), Some(&0));
    if let Some(c) = s.get_mut(-2, 3, 0) {
        *c = 9;
    }
    assert_eq!(s.get(-2, 3, 0), Some(&9));
    if let Some(c) = s.get_mut_pos(&BoardPosition { x: 2, y: 0, z: 0 }) {
        *c += 1;
    }
    assert_eq!(s.get(2, 0, 0), Some(&1));
    // a column past the right edge clamps onto the first cell of the next row
    assert_eq!(s.get(3, 1, 0), s.get(-2, 2, 0));
    // a coordinate before the left edge clamps past the row too
    assert_eq!(s.get(-3, 1, 0), s.get(-2, 2, 0));
}

#[test]
fn collision_field_from_tiles() {
    use_collision();
}

fn mv(walkable: bool, player: bool, ghost: bool) -> Movement {
    Movement { walkable, player_collision: player, ghost_collision: ghost }
}

fn use_collision() {
    let tiles = vec![
        (BoardPosition { x: 0, y: 0, z: 0 }, mv(true, false, false), false),
        (BoardPosition { x: 1, y: 0, z: 0 }, mv(true, false, false), false),
        // a wall on the second floor tile
        (BoardPosition { x: 1, y: 0, z: 0 }, mv(false, true, true), false),
        // a low wall lets light and the ghost through
        (BoardPosition { x: 2, y: 0, z: 0 }, mv(false, true, false), true),
    ];
    let f = build_collision_field(&tiles);
    assert_eq!(
        f.get(&BoardPosition { x: 0, y: 0, z: 0 }),
        Some(CollisionFieldData { player_free: true, ghost_free: true, see_through: false })
    );
    assert_eq!(
        f.get(&BoardPosition { x: 1, y: 0, z: 0 }),
        Some(CollisionFieldData { player_free: false, ghost_free: false, see_through: false })
    );
    assert_eq!(
        f.get(&BoardPosition { x: 2, y: 0, z: 0 }),
        Some(CollisionFieldData { player_free: false, ghost_free: true, see_through: true })
    );
    assert_eq!(f.get(&BoardPosition { x: 3, y: 0, z: 0 }), None);
    let mut g = CollisionField::new();
    g.insert(BoardPosition { x: 5, y: 5, z: 0 }, CollisionFieldData { player_free: true, ghost_free: false, see_through: true });
    assert_eq!(g.get(&BoardPosition { x: 5, y: 5, z: 0 }).unwrap().ghost_free, false);
}

#[test]
fn bounds_of_tiles() {
    assert_eq!(
        tiles_bounds(&vec![]),
        (BoardPosition { x: 0, y: 0, z: 0 }, BoardPosition { x: 0, y: 0, z: 0 })
    );
    let ps = vec![
        BoardPosition { x: 3, y: -1, z: 0 },
        BoardPosition { x: -2, y: 4, z: 1 },
        BoardPosition { x: 0, y: 0, z: 0 },
    ];
    assert_eq!(
        tiles_bounds(&ps),
        (BoardPosition { x: -2, y: -1, z: 0 }, BoardPosition { x: 3, y: 4, z: 1 })
    );
}
