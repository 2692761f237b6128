//! Layout of the level: a grid of floor tiles drawn in a slanted projection,
//! framed by four wall segments.
//!
//! Grid cell `(x, y)` is column `x` and row `y`; a sprite's screen position is
//! computed from the cell by fixed steps per column and per row.

use vstd::prelude::*;
use vstd::arithmetic::div_mod::lemma_fundamental_div_mod_converse;

verus! {

/// Number of columns of the floor grid.
pub const WIDTH: usize = 10;

/// Number of rows of the floor grid.
pub const HEIGHT: usize = 10;

/// Horizontal screen step from one column to the next.
pub const STEP_X: i32 = 191;

/// Vertical screen step from one row to the next.
pub const STEP_Y: i32 = 120;

/// Vertical screen step between two pieces of a horizontal wall.
pub const STEP_Y_H: i32 = 60;

/// Column of the door cell.
pub const DOOR_COLUMN: usize = 7;

/// Row of the door cell.
pub const DOOR_ROW: usize = 4;

/// Grid value of an ordinary floor cell.
pub const PLAIN_CELL: u8 = 0;

/// Grid value of the door cell.
pub const DOOR_CELL: u8 = 1;

/// The column, just outside the grid, that the walls are computed from.
pub const WALL_COLUMN: i32 = -1;

/// What a placed sprite shows.
#[derive(Clone, Copy, Debug, PartialEq, Eq, Structural)]
pub enum TileKind {
    /// An ordinary floor tile.
    Floor,
    /// The stairs tile that marks the door cell.
    Stairs,
    /// A piece of a wall running along the rows.
    WallVertical,
    /// A piece of a wall running along the columns.
    WallHorizontal,
}

/// A sprite of the level with its screen position and its depth.
#[derive(Clone, Copy, Debug, PartialEq, Eq, Structural)]
pub struct Placement {
    pub kind: TileKind,
    pub x: i32,
    pub y: i32,
    pub z: i32,
}

/// The value of grid cell `(x, y)`: the door cell is marked, every other
/// cell is plain floor.
pub open spec fn cell_value(x: int, y: int) -> u8 {
    if x == DOOR_COLUMN && y == DOOR_ROW {
        DOOR_CELL
    } else {
        PLAIN_CELL
    }
}

/// `map` has `HEIGHT` rows of `WIDTH` cells each.
pub open spec fn grid_shaped(map: Seq<Seq<u8>>) -> bool {
    &&& map.len() == HEIGHT
    &&& forall|y: int| 0 <= y < HEIGHT ==> (#[trigger] map[y]).len() == WIDTH
}

/// The grid of the level, indexed by row then column.
pub open spec fn level_grid() -> Seq<Seq<u8>> {
    Seq::new(HEIGHT as nat, |y: int| Seq::new(WIDTH as nat, |x: int| cell_value(x, y)))
}

/// Builds the grid of the level, indexed by row then column: every cell is
/// plain floor but the door cell.
pub fn tile_map() -> (map: Vec<Vec<u8>>)
    ensures
        map.deep_view() == level_grid(),
        grid_shaped(map.deep_view()),
{
    let mut map: Vec<Vec<u8>> = Vec::new();
    for y in 0..HEIGHT
        invariant
            map@.len() == y,
            forall|j: int| 0 <= j < y ==> (#[trigger] map@[j]).len() == WIDTH,
            forall|j: int, x: int|
                0 <= j < y && 0 <= x < WIDTH ==> #[trigger] map@[j]@[x] == cell_value(x, j),
    {
        let mut row: Vec<u8> = Vec::new();
        for x in 0..WIDTH
            invariant
                row@.len() == x,
                forall|i: int| 0 <= i < x ==> #[trigger] row@[i] == cell_value(i, y as int),
        {
            if x == DOOR_COLUMN && y == DOOR_ROW {
                row.push(DOOR_CELL);
            } else {
                row.push(PLAIN_CELL);
            }
        }
        map.push(row);
    }
    assert(map.deep_view() =~~= level_grid());
    map
}

/// What the floor sprite of a cell with value `cell` shows.
pub open spec fn floor_kind(cell: u8) -> TileKind {
    if cell == PLAIN_CELL {
        TileKind::Floor
    } else {
        TileKind::Stairs
    }
}

/// The floor sprite of cell `(x, y)` of `map`.
pub open spec fn floor_tile(map: Seq<Seq<u8>>, x: int, y: int) -> Placement {
    Placement {
        kind: floor_kind(map[y][x]),
        x: (x * STEP_X + 130 * y) as i32,
        y: (y * STEP_Y - 60 * x) as i32,
        z: 0,
    }
}

/// All floor sprites of `map`, column by column and, within a column, row by row.
pub open spec fn floor_layout(map: Seq<Seq<u8>>) -> Seq<Placement> {
    Seq::new((WIDTH * HEIGHT) as nat, |i: int| floor_tile(map, i / (HEIGHT as int), i % (HEIGHT as int)))
}

/// Screen position of the floor sprite of cell `(x, y)`.
pub fn floor_position(x: usize, y: usize) -> (r: (i32, i32))
    requires
        x < WIDTH,
        y < HEIGHT,
    ensures
        r.0 == x * STEP_X + 130 * y,
        r.1 == y * STEP_Y - 60 * x,
{
    let cx: i32 = x as i32;
    let cy: i32 = y as i32;
    (cx * STEP_X + 130 * cy, cy * STEP_Y - 60 * cx)
}

/// Places one floor sprite on every cell of `map`, column by column; the door
/// cell, or any cell that is not plain floor, shows the stairs.
pub fn floor_tiles(map: &Vec<Vec<u8>>) -> (r: Vec<Placement>)
    requires
        grid_shaped(map.deep_view()),
    ensures
        r@ == floor_layout(map.deep_view()),
{
    let ghost grid = map.deep_view();
    let mut r: Vec<Placement> = Vec::new();
    for x in 0..WIDTH
        invariant
            grid == map.deep_view(),
            grid_shaped(grid),
            r@.len() == x * HEIGHT,
            forall|i: int| 0 <= i < r@.len() ==> #[trigger] r@[i] == floor_layout(grid)[i],
    {
        for y in 0..HEIGHT
            invariant
                grid == map.deep_view(),
                grid_shaped(grid),
                x < WIDTH,
                r@.len() == x * HEIGHT + y,
                forall|i: int| 0 <= i < r@.len() ==> #[trigger] r@[i] == floor_layout(grid)[i],
        {
            let (sx, sy) = floor_position(x, y);
            let row: &Vec<u8> = &map[y];
            proof {
                assert(grid[y as int] == row.deep_view());
                assert(grid[y as int].len() == WIDTH);
            }
            let cell: u8 = row[x];
            let kind: TileKind = if cell == PLAIN_CELL {
                TileKind::Floor
            } else {
                TileKind::Stairs
            };
            proof {
                let i: int = x * HEIGHT + y;
                lemma_fundamental_div_mod_converse(i, HEIGHT as int, x as int, y as int);
                assert(cell == grid[y as int][x as int]);
            }
            r.push(Placement { kind, x: sx, y: sy, z: 0 });
        }
    }
    assert(r@ =~= floor_layout(grid));
    r
}

/// A wall piece drawn from row `y` of the wall column, on the upper left edge.
pub open spec fn top_left_wall(y: int) -> Placement {
    Placement {
        kind: TileKind::WallVertical,
        x: (WALL_COLUMN * STEP_X + 130 * y) as i32,
        y: (y * STEP_Y - 58 * WALL_COLUMN) as i32,
        z: (HEIGHT - y) as i32,
    }
}

/// A wall piece drawn from step `y` along the upper right edge.
pub open spec fn top_right_wall(y: int) -> Placement {
    Placement {
        kind: TileKind::WallHorizontal,
        x: (-WALL_COLUMN * STEP_X + STEP_X * y - 640) as i32,
        y: ((HEIGHT + WIDTH) * STEP_Y_H - (y * STEP_Y_H + 300 * WALL_COLUMN) + 290) as i32,
        z: y as i32,
    }
}

/// A wall piece drawn from step `y` along the lower left edge.
pub open spec fn bottom_left_wall(y: int) -> Placement {
    Placement {
        kind: TileKind::WallHorizontal,
        x: (-WALL_COLUMN * STEP_X + STEP_X * y - 290) as i32,
        y: (-(y * STEP_Y_H + 300 * WALL_COLUMN) - HEIGHT * 60 + 290) as i32,
        z: (y + 200) as i32,
    }
}

/// A wall piece drawn from row `y` of the wall column, on the lower right edge.
pub open spec fn bottom_right_wall(y: int) -> Placement {
    Placement {
        kind: TileKind::WallVertical,
        x: (WALL_COLUMN * STEP_X + 130 * y + 1980) as i32,
        y: (y * STEP_Y - 60 * WALL_COLUMN - 540) as i32,
        z: ((HEIGHT + WIDTH) * 10 - y) as i32,
    }
}

/// The upper left wall: rows `HEIGHT` down to `0`.
pub open spec fn top_left_layout() -> Seq<Placement> {
    Seq::new((HEIGHT + 1) as nat, |k: int| top_left_wall(HEIGHT - k))
}

/// The upper right wall: steps `HEIGHT + WIDTH - 2` down to `HEIGHT - 1`.
pub open spec fn top_right_layout() -> Seq<Placement> {
    Seq::new(WIDTH as nat, |k: int| top_right_wall(HEIGHT + WIDTH - 2 - k))
}

/// The lower left wall: steps `WIDTH - 1` down to `0`.
pub open spec fn bottom_left_layout() -> Seq<Placement> {
    Seq::new(WIDTH as nat, |k: int| bottom_left_wall(WIDTH - 1 - k))
}

/// The lower right wall: rows `WIDTH - 1` down to `0`.
pub open spec fn bottom_right_layout() -> Seq<Placement> {
    Seq::new(WIDTH as nat, |k: int| bottom_right_wall(WIDTH - 1 - k))
}

/// Every sprite of the level in the order it is drawn: the floor of the level
/// grid, then the upper left, upper right, lower left and lower right walls.
pub open spec fn level_layout_spec() -> Seq<Placement> {
    floor_layout(level_grid()) + top_left_layout() + top_right_layout() + bottom_left_layout()
        + bottom_right_layout()
}

/// Places the upper left wall, from the last row down to the first.
pub fn top_left_walls() -> (r: Vec<Placement>)
    ensures
        r@ == top_left_layout(),
{
    let mut r: Vec<Placement> = Vec::new();
    for k in 0..HEIGHT + 1
        invariant
            r@ =~= top_left_layout().take(k as int),
    {
        let y: i32 = (HEIGHT - k) as i32;
        r.push(
            Placement {
                kind: TileKind::WallVertical,
                x: WALL_COLUMN * STEP_X + 130 * y,
                y: y * STEP_Y - 58 * WALL_COLUMN,
                z: HEIGHT as i32 - y,
            },
        );
    }
    r
}

/// Places the upper right wall, from the far end back to the grid's corner.
pub fn top_right_walls() -> (r: Vec<Placement>)
    ensures
        r@ == top_right_layout(),
{
    let mut r: Vec<Placement> = Vec::new();
    for k in 0..WIDTH
        invariant
            r@ =~= top_right_layout().take(k as int),
    {
        let y: i32 = (HEIGHT + WIDTH - 2 - k) as i32;
        r.push(
            Placement {
                kind: TileKind::WallHorizontal,
                x: -WALL_COLUMN * STEP_X + STEP_X * y - 640,
                y: (HEIGHT + WIDTH) as i32 * STEP_Y_H - (y * STEP_Y_H + 300 * WALL_COLUMN) + 290,
                z: y,
            },
        );
    }
    r
}

/// Places the lower left wall, from the far end back to the grid's corner.
pub fn bottom_left_walls() -> (r: Vec<Placement>)
    ensures
        r@ == bottom_left_layout(),
{
    let mut r: Vec<Placement> = Vec::new();
    for k in 0..WIDTH
        invariant
            r@ =~= bottom_left_layout().take(k as int),
    {
        let y: i32 = (WIDTH - 1 - k) as i32;
        r.push(
            Placement {
                kind: TileKind::WallHorizontal,
                x: -WALL_COLUMN * STEP_X + STEP_X * y - 290,
                y: -(y * STEP_Y_H + 300 * WALL_COLUMN) - HEIGHT as i32 * 60 + 290,
                z: y + 200,
            },
        );
    }
    r
}

/// Places the lower right wall, from the last row down to the first.
pub fn bottom_right_walls() -> (r: Vec<Placement>)
    ensures
        r@ == bottom_right_layout(),
{
    let mut r: Vec<Placement> = Vec::new();
    for k in 0..WIDTH
        invariant
            r@ =~= bottom_right_layout().take(k as int),
    {
        let y: i32 = (WIDTH - 1 - k) as i32;
        r.push(
            Placement {
                kind: TileKind::WallVertical,
                x: WALL_COLUMN * STEP_X + 130 * y + 1980,
                y: y * STEP_Y - 60 * WALL_COLUMN - 540,
                z: (HEIGHT + WIDTH) as i32 * 10 - y,
            },
        );
    }
    r
}

/// Every sprite of the level in the order it is drawn: the floor of the
/// level grid, then the four walls.
pub fn level_layout() -> (r: Vec<Placement>)
    ensures
        r@ == level_layout_spec(),
{
    let map: Vec<Vec<u8>> = tile_map();
    let mut r: Vec<Placement> = floor_tiles(&map);
    let mut walls: Vec<Placement> = top_left_walls();
    r.append(&mut walls);
    let mut walls: Vec<Placement> = top_right_walls();
    r.append(&mut walls);
    let mut walls: Vec<Placement> = bottom_left_walls();
    r.append(&mut walls);
    let mut walls: Vec<Placement> = bottom_right_walls();
    r.append(&mut walls);
    r
}

} // verus!
