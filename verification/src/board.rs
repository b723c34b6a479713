//! The board: grid coordinates, the per-cell tile description of a
//! board template, and the template chosen for a game.

use vstd::prelude::*;

use crate::actors::SpawnPosition;
use crate::tile::TileBundle;
use crate::tile::TileType;
use crate::tile::spawn_tile;
use crate::tile::spec_rotate_ways;
use crate::tile::spec_shape_ways;

verus! {

/// The position of a player, a tile or a treasure in tile units.
/// Positions with both coordinates inside `[0, max]` are on the board;
/// a position with exactly one coordinate at `-1` or `max + 1` is the
/// external (spare) slot on the border.
#[derive(Debug, Clone, Copy, PartialEq, Eq, Structural)]
pub struct GridPosition {
    pub x_pos: i32,
    pub y_pos: i32,
}

/// Whether an entity may act or be displaced: tiles spawned with a
/// fixed shape are `No` and are never eligible to be pushed out.
#[derive(Debug, Clone, Copy, PartialEq, Eq, Structural)]
pub enum CanMove {
    Yes,
    No,
}

/// All of the information a board template holds for one cell: the
/// tile's shape, its rotation in degrees, and whether it is fixed.
#[derive(Debug, Clone, Copy, PartialEq, Eq, Structural)]
pub struct TileInfo {
    pub tile_type: TileType,
    pub angle: i32,
    pub can_move: CanMove,
}

/// A board template: a rectangular grid of cells stored row-major (the
/// first row is the top of the board), the fixed spawn and treasure
/// positions, and the external tile's initial description.
#[derive(Debug, Clone)]
pub struct Board {
    pub rows: usize,
    pub cols: usize,
    pub tiles: Vec<TileInfo>,
    pub spawn_positions: Vec<SpawnPosition>,
    pub treasure_positions: Vec<SpawnPosition>,
    pub external_tile: TileInfo,
}

impl Board {
    /// A well-formed board is a non-empty rectangle whose cell vector
    /// matches its dimensions, small enough that every coordinate,
    /// the border slots one step outside, and one further step of
    /// shift arithmetic all fit in an `i32`.
    pub open spec fn wf(self) -> bool {
        &&& 1 <= self.rows <= 0x7ffffffe
        &&& 1 <= self.cols <= 0x7ffffffe
        &&& self.tiles@.len() == self.rows * self.cols
    }

    /// The cell in template row `row` (counted from the top) and
    /// column `col`.
    pub open spec fn spec_tile_at(self, row: int, col: int) -> TileInfo {
        self.tiles@[row * self.cols + col]
    }

    pub fn tile_at(&self, row: usize, col: usize) -> (r: TileInfo)
        requires
            self.wf(),
            row < self.rows,
            col < self.cols,
        ensures
            r == self.spec_tile_at(row as int, col as int),
    {
        let n = self.tiles.len();
        proof {
            assert(row * self.cols + col < self.rows * self.cols) by (nonlinear_arith)
                requires
                    row < self.rows,
                    col < self.cols,
            ;
            assert(row * self.cols + col < n);
        }
        self.tiles[row * self.cols + col]
    }
}

/// The board template a game was started with; read-only thereafter.
#[derive(Debug, Clone)]
pub struct SelectedBoard {
    pub board: Board,
}

/// Whether one spawned tile matches one template cell placed at grid
/// position `(x, y)`: position and fixedness taken over, the shape kept
/// (or, for `Any`, resolved to one of the three random choices), and
/// the open sides the resolved shape's canonical set rotated by the
/// cell's angle.
pub open spec fn spec_tile_matches_cell(b: TileBundle, cell: TileInfo, x: int, y: int) -> bool {
    &&& b.pos.x_pos == x
    &&& b.pos.y_pos == y
    &&& b.can_move == cell.can_move
    &&& (cell.tile_type != TileType::Any ==> b.tile_type == cell.tile_type)
    &&& (cell.tile_type == TileType::Any ==> (b.tile_type == TileType::Corner || b.tile_type
        == TileType::Straight || b.tile_type == TileType::T))
    &&& b.open_ways == spec_rotate_ways(spec_shape_ways(b.tile_type), cell.angle as int)
}

/// Instantiate every tile of the selected board template, plus the
/// external tile. Template rows are stored top-down, so the cell in
/// template row `yy` lands at grid row `rows - 1 - yy`; the external
/// tile starts one step off the left border, at `(-1, 0)`.
pub fn spawn_board(selected_board: &SelectedBoard, rng: &mut rand::rngs::ThreadRng) -> (r: Vec<
    TileBundle,
>)
    requires
        selected_board.board.wf(),
    ensures
        r@.len() == selected_board.board.rows * selected_board.board.cols + 1,
        forall|yy: int, xx: int|
            0 <= yy < selected_board.board.rows && 0 <= xx < selected_board.board.cols
                ==> spec_tile_matches_cell(
                r@[yy * selected_board.board.cols + xx],
                #[trigger] selected_board.board.spec_tile_at(yy, xx),
                xx,
                selected_board.board.rows - 1 - yy,
            ),
        spec_tile_matches_cell(
            r@.last(),
            selected_board.board.external_tile,
            -1,
            0,
        ),
{
    let rows = selected_board.board.rows;
    let cols = selected_board.board.cols;
    let mut out: Vec<TileBundle> = Vec::new();

    let mut y: usize = 0;
    while y < rows
        invariant
            selected_board.board.wf(),
            rows == selected_board.board.rows,
            cols == selected_board.board.cols,
            y <= rows,
            out@.len() == y * cols,
            forall|yy: int, xx: int|
                0 <= yy < y && 0 <= xx < cols ==> spec_tile_matches_cell(
                    out@[yy * cols + xx],
                    #[trigger] selected_board.board.spec_tile_at(yy, xx),
                    xx,
                    rows - 1 - yy,
                ),
        decreases rows - y,
    {
        proof {
            assert(y * cols + cols == (y + 1) * cols) by (nonlinear_arith);
            assert((y + 1) * cols <= rows * cols) by (nonlinear_arith)
                requires
                    y < rows,
                    0 <= cols,
            ;
        }
        let mut x: usize = 0;
        while x < cols
            invariant
                selected_board.board.wf(),
                rows == selected_board.board.rows,
                cols == selected_board.board.cols,
                y < rows,
                x <= cols,
                y * cols + cols <= rows * cols,
                out@.len() == y * cols + x,
                forall|yy: int, xx: int|
                    0 <= yy < y && 0 <= xx < cols ==> spec_tile_matches_cell(
                        out@[yy * cols + xx],
                        #[trigger] selected_board.board.spec_tile_at(yy, xx),
                        xx,
                        rows - 1 - yy,
                    ),
                forall|xx: int|
                    0 <= xx < x ==> spec_tile_matches_cell(
                        out@[y * cols + xx],
                        #[trigger] selected_board.board.spec_tile_at(y as int, xx),
                        xx,
                        rows - 1 - y,
                    ),
            decreases cols - x,
        {
            let cell = selected_board.board.tile_at(y, x);
            let int_y = (rows - 1 - y) as i32;
            let b = spawn_tile(x as i32, int_y, cell.tile_type, cell.angle, cell.can_move, rng);
            let ghost out0 = out@;
            out.push(b);
            proof {
                assert forall|yy: int, xx: int|
                    0 <= yy < y && 0 <= xx < cols implies spec_tile_matches_cell(
                    out@[yy * cols + xx],
                    #[trigger] selected_board.board.spec_tile_at(yy, xx),
                    xx,
                    rows - 1 - yy,
                ) by {
                    assert(yy * cols + xx < y * cols) by (nonlinear_arith)
                        requires
                            0 <= yy < y,
                            0 <= xx < cols,
                    ;
                    assert(out@[yy * cols + xx] == out0[yy * cols + xx]);
                }
            }
            x = x + 1;
        }
        y = y + 1;
    }
    proof {
        assert(out@.len() == rows * cols);
    }
    let b = spawn_tile(
        -1,
        0,
        selected_board.board.external_tile.tile_type,
        selected_board.board.external_tile.angle,
        selected_board.board.external_tile.can_move,
        rng,
    );
    let ghost out0 = out@;
    out.push(b);
    proof {
        assert forall|yy: int, xx: int|
            0 <= yy < rows && 0 <= xx < cols implies spec_tile_matches_cell(
            out@[yy * cols + xx],
            #[trigger] selected_board.board.spec_tile_at(yy, xx),
            xx,
            rows - 1 - yy,
        ) by {
            assert(yy * cols + xx < rows * cols) by (nonlinear_arith)
                requires
                    0 <= yy < rows,
                    0 <= xx < cols,
            ;
            assert(out@[yy * cols + xx] == out0[yy * cols + xx]);
        }
    }
    out
}

/// Select the board template a new game is played on: the classic 7 by
/// 7 layout.
pub fn select_board() -> (r: SelectedBoard)
    ensures
        r.board.wf(),
        crate::boards_repository::spec_is_board_classic(r.board),
{
    SelectedBoard { board: crate::boards_repository::board_classic() }
}

} // verus!
