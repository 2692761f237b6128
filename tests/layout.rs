use tile_dungeon::layout::{
    bottom_left_walls, bottom_right_walls, floor_position, floor_tiles, level_layout, tile_map,
    top_left_walls, top_right_walls, Placement, TileKind, HEIGHT, WIDTH,
};

fn at(kind: TileKind, x: i32, y: i32, z: i32) -> Placement {
    Placement { kind, x, y, z }
}

#[test]
fn grid_marks_only_the_door() {
    let map = tile_map();
    assert_eq!(map.len(), HEIGHT);
    for (y, row) in map.iter().enumerate() {
        assert_eq!(row.len(), WIDTH);
        for (x, cell) in row.iter().enumerate() {
            let expected = if y == 4 && x == 7 { 1 } else { 0 };
            assert_eq!(*cell, expected);
        }
    }
}

#[test]
fn floor_positions_follow_the_steps() {
    assert_eq!(floor_position(0, 0), (0, 0));
    assert_eq!(floor_position(1, 0), (191, -60));
    assert_eq!(floor_position(0, 1), (130, 120));
    assert_eq!(floor_position(9, 9), (2889, 540));
}

#[test]
fn floor_covers_the_grid_column_by_column() {
    let floor = floor_tiles(&tile_map());
    assert_eq!(floor.len(), 100);
    assert_eq!(floor[0], at(TileKind::Floor, 0, 0, 0));
    assert_eq!(floor[1], at(TileKind::Floor, 130, 120, 0));
    assert_eq!(floor[10], at(TileKind::Floor, 191, -60, 0));
    assert_eq!(floor[74], at(TileKind::Stairs, 1857, 60, 0));
    assert_eq!(floor[99], at(TileKind::Floor, 2889, 540, 0));
    let stairs = floor.iter().filter(|p| p.kind == TileKind::Stairs).count();
    assert_eq!(stairs, 1);
}

#[test]
fn any_marked_cell_shows_stairs() {
    let map = vec![vec![2u8; WIDTH]; HEIGHT];
    let floor = floor_tiles(&map);
    assert_eq!(floor.len(), 100);
    assert!(floor.iter().all(|p| p.kind == TileKind::Stairs && p.z == 0));
}

#[test]
fn upper_left_wall_runs_from_last_row_to_first() {
    let walls = top_left_walls();
    assert_eq!(walls.len(), 11);
    assert_eq!(walls[0], at(TileKind::WallVertical, 1109, 1258, 0));
    assert_eq!(walls[1], at(TileKind::WallVertical, 979, 1138, 1));
    assert_eq!(walls[10], at(TileKind::WallVertical, -191, 58, 10));
}

#[test]
fn upper_right_wall_values() {
    let walls = top_right_walls();
    assert_eq!(walls.len(), 10);
    assert_eq!(walls[0], at(TileKind::WallHorizontal, 2989, 710, 18));
    assert_eq!(walls[9], at(TileKind::WallHorizontal, 1270, 1250, 9));
}

#[test]
fn lower_left_wall_values() {
    let walls = bottom_left_walls();
    assert_eq!(walls.len(), 10);
    assert_eq!(walls[0], at(TileKind::WallHorizontal, 1620, -550, 209));
    assert_eq!(walls[9], at(TileKind::WallHorizontal, -99, -10, 200));
}

#[test]
fn lower_right_wall_values() {
    let walls = bottom_right_walls();
    assert_eq!(walls.len(), 10);
    assert_eq!(walls[0], at(TileKind::WallVertical, 2959, 600, 191));
    assert_eq!(walls[9], at(TileKind::WallVertical, 1789, -480, 200));
}

#[test]
fn level_is_floor_then_four_walls() {
    let level = level_layout();
    assert_eq!(level.len(), 141);
    let mut expected = floor_tiles(&tile_map());
    expected.extend(top_left_walls());
    expected.extend(top_right_walls());
    expected.extend(bottom_left_walls());
    expected.extend(bottom_right_walls());
    assert_eq!(level, expected);
    assert_eq!(level[100], at(TileKind::WallVertical, 1109, 1258, 0));
    assert_eq!(level[140], at(TileKind::WallVertical, 1789, -480, 200));
}
