//! The catalog of board templates. Each template fixes the tiles whose
//! shape and orientation anchor the maze (the corners and the
//! T-junctions on even cells), leaves the rest to be resolved randomly
//! at spawn time, and names the fixed player spawn corners. Rows are
//! written top-down.

use vstd::prelude::*;

use crate::actors::SpawnPosition;
use crate::board::Board;
use crate::board::CanMove;
use crate::board::GridPosition;
use crate::board::TileInfo;
use crate::tile::TileType;

verus! {

/// A fixed cell: a set shape and angle, never displaced by a push.
pub open spec fn spec_fixed_cell(tile_type: TileType, angle: i32) -> TileInfo {
    TileInfo { tile_type, angle, can_move: CanMove::No }
}

/// A free cell: shape resolved randomly at spawn time, movable.
pub open spec fn spec_free_cell() -> TileInfo {
    TileInfo { tile_type: TileType::Any, angle: 0, can_move: CanMove::Yes }
}

fn fixed(tile_type: TileType, angle: i32) -> (r: TileInfo)
    ensures
        r == spec_fixed_cell(tile_type, angle),
{
    TileInfo { tile_type, angle, can_move: CanMove::No }
}

fn free() -> (r: TileInfo)
    ensures
        r == spec_free_cell(),
{
    TileInfo { tile_type: TileType::Any, angle: 0, can_move: CanMove::Yes }
}

/// The fixed corner spawn cells of a square template with largest
/// coordinate `m`.
pub open spec fn spec_corner_spawns(m: int) -> Seq<SpawnPosition> {
    seq![
        SpawnPosition::Position(GridPosition { x_pos: 0, y_pos: 0 }),
        SpawnPosition::Position(GridPosition { x_pos: 0, y_pos: m as i32 }),
        SpawnPosition::Position(GridPosition { x_pos: m as i32, y_pos: m as i32 }),
        SpawnPosition::Position(GridPosition { x_pos: m as i32, y_pos: 0 }),
    ]
}

/// Four treasures placed anywhere.
pub open spec fn spec_open_treasures() -> Seq<SpawnPosition> {
    seq![SpawnPosition::Any, SpawnPosition::Any, SpawnPosition::Any, SpawnPosition::Any]
}

/// The cell catalog of the 5 by 5 template, row-major from the top row
/// down.
pub open spec fn spec_board_0_tiles() -> Seq<TileInfo> {
    seq![
        spec_fixed_cell(TileType::Corner, 90),
        spec_free_cell(),
        spec_fixed_cell(TileType::T, 0),
        spec_free_cell(),
        spec_fixed_cell(TileType::Corner, 0),
        spec_free_cell(),
        spec_free_cell(),
        spec_free_cell(),
        spec_free_cell(),
        spec_free_cell(),
        spec_fixed_cell(TileType::T, 90),
        spec_free_cell(),
        spec_free_cell(),
        spec_free_cell(),
        spec_fixed_cell(TileType::T, -90 as i32),
        spec_free_cell(),
        spec_free_cell(),
        spec_free_cell(),
        spec_free_cell(),
        spec_free_cell(),
        spec_fixed_cell(TileType::Corner, 180),
        spec_free_cell(),
        spec_fixed_cell(TileType::T, 180),
        spec_free_cell(),
        spec_fixed_cell(TileType::Corner, -90 as i32),
    ]
}

/// The cell catalog of the classic 7 by 7 template, row-major from the
/// top row down.
pub open spec fn spec_board_classic_tiles() -> Seq<TileInfo> {
    seq![
        spec_fixed_cell(TileType::Corner, 90),
        spec_free_cell(),
        spec_fixed_cell(TileType::T, 0),
        spec_free_cell(),
        spec_fixed_cell(TileType::T, 0),
        spec_free_cell(),
        spec_fixed_cell(TileType::Corner, 0),
        spec_free_cell(),
        spec_free_cell(),
        spec_free_cell(),
        spec_free_cell(),
        spec_free_cell(),
        spec_free_cell(),
        spec_free_cell(),
        spec_fixed_cell(TileType::T, 90),
        spec_free_cell(),
        spec_fixed_cell(TileType::T, 90),
        spec_free_cell(),
        spec_fixed_cell(TileType::T, 0),
        spec_free_cell(),
        spec_fixed_cell(TileType::T, -90 as i32),
        spec_free_cell(),
        spec_free_cell(),
        spec_free_cell(),
        spec_free_cell(),
        spec_free_cell(),
        spec_free_cell(),
        spec_free_cell(),
        spec_fixed_cell(TileType::T, 90),
        spec_free_cell(),
        spec_fixed_cell(TileType::T, 180),
        spec_free_cell(),
        spec_fixed_cell(TileType::T, -90 as i32),
        spec_free_cell(),
        spec_fixed_cell(TileType::T, -90 as i32),
        spec_free_cell(),
        spec_free_cell(),
        spec_free_cell(),
        spec_free_cell(),
        spec_free_cell(),
        spec_free_cell(),
        spec_free_cell(),
        spec_fixed_cell(TileType::Corner, 180),
        spec_free_cell(),
        spec_fixed_cell(TileType::T, 180),
        spec_free_cell(),
        spec_fixed_cell(TileType::T, 180),
        spec_free_cell(),
        spec_fixed_cell(TileType::Corner, -90 as i32),
    ]
}

/// Whether `b` is exactly the 5 by 5 template: every field pinned, cell
/// by cell.
pub open spec fn spec_is_board_0(b: Board) -> bool {
    &&& b.rows == 5
    &&& b.cols == 5
    &&& b.tiles@ == spec_board_0_tiles()
    &&& b.spawn_positions@ == spec_corner_spawns(4)
    &&& b.treasure_positions@ == spec_open_treasures()
    &&& b.external_tile == (TileInfo {
        tile_type: TileType::Corner,
        angle: 0,
        can_move: CanMove::Yes,
    })
}

/// Whether `b` is exactly the classic 7 by 7 template: every field
/// pinned, cell by cell.
pub open spec fn spec_is_board_classic(b: Board) -> bool {
    &&& b.rows == 7
    &&& b.cols == 7
    &&& b.tiles@ == spec_board_classic_tiles()
    &&& b.spawn_positions@ == spec_corner_spawns(6)
    &&& b.treasure_positions@ == spec_open_treasures()
    &&& b.external_tile == (TileInfo {
        tile_type: TileType::Corner,
        angle: 0,
        can_move: CanMove::Yes,
    })
}

/// A 5 by 5 template: fixed corners and T-junctions on the rim, one
/// fixed spawn in each corner, four treasures placed anywhere, and a
/// corner tile as the initial spare.
pub fn board_0() -> (r: Board)
    ensures
        r.wf(),
        spec_is_board_0(r),
{
    let mut tiles: Vec<TileInfo> = Vec::new();
    // top row
    tiles.push(fixed(TileType::Corner, 90));
    tiles.push(free());
    tiles.push(fixed(TileType::T, 0));
    tiles.push(free());
    tiles.push(fixed(TileType::Corner, 0));
    // second row
    tiles.push(free());
    tiles.push(free());
    tiles.push(free());
    tiles.push(free());
    tiles.push(free());
    // middle row
    tiles.push(fixed(TileType::T, 90));
    tiles.push(free());
    tiles.push(free());
    tiles.push(free());
    tiles.push(fixed(TileType::T, -90));
    // fourth row
    tiles.push(free());
    tiles.push(free());
    tiles.push(free());
    tiles.push(free());
    tiles.push(free());
    // bottom row
    tiles.push(fixed(TileType::Corner, 180));
    tiles.push(free());
    tiles.push(fixed(TileType::T, 180));
    tiles.push(free());
    tiles.push(fixed(TileType::Corner, -90));

    let mut spawn_positions: Vec<SpawnPosition> = Vec::new();
    spawn_positions.push(SpawnPosition::Position(GridPosition { x_pos: 0, y_pos: 0 }));
    spawn_positions.push(SpawnPosition::Position(GridPosition { x_pos: 0, y_pos: 4 }));
    spawn_positions.push(SpawnPosition::Position(GridPosition { x_pos: 4, y_pos: 4 }));
    spawn_positions.push(SpawnPosition::Position(GridPosition { x_pos: 4, y_pos: 0 }));

    let mut treasure_positions: Vec<SpawnPosition> = Vec::new();
    treasure_positions.push(SpawnPosition::Any);
    treasure_positions.push(SpawnPosition::Any);
    treasure_positions.push(SpawnPosition::Any);
    treasure_positions.push(SpawnPosition::Any);

    proof {
        assert(tiles@ =~= spec_board_0_tiles());
        assert(spawn_positions@ =~= spec_corner_spawns(4));
        assert(treasure_positions@ =~= spec_open_treasures());
    }
    Board {
        rows: 5,
        cols: 5,
        tiles,
        spawn_positions,
        treasure_positions,
        external_tile: TileInfo { tile_type: TileType::Corner, angle: 0, can_move: CanMove::Yes },
    }
}

/// The classic 7 by 7 template: fixed corners and T-junctions on every
/// other cell, one fixed spawn in each corner, four treasures placed
/// anywhere, and a corner tile as the initial spare.
#[verifier::rlimit(60)]
pub fn board_classic() -> (r: Board)
    ensures
        r.wf(),
        spec_is_board_classic(r),
{
    let mut tiles: Vec<TileInfo> = Vec::new();
    // top row
    tiles.push(fixed(TileType::Corner, 90));
    tiles.push(free());
    tiles.push(fixed(TileType::T, 0));
    tiles.push(free());
    tiles.push(fixed(TileType::T, 0));
    tiles.push(free());
    tiles.push(fixed(TileType::Corner, 0));
    // second row
    tiles.push(free());
    tiles.push(free());
    tiles.push(free());
    tiles.push(free());
    tiles.push(free());
    tiles.push(free());
    tiles.push(free());
    // third row
    tiles.push(fixed(TileType::T, 90));
    tiles.push(free());
    tiles.push(fixed(TileType::T, 90));
    tiles.push(free());
    tiles.push(fixed(TileType::T, 0));
    tiles.push(free());
    tiles.push(fixed(TileType::T, -90));
    // fourth row
    tiles.push(free());
    tiles.push(free());
    tiles.push(free());
    tiles.push(free());
    tiles.push(free());
    tiles.push(free());
    tiles.push(free());
    // fifth row
    tiles.push(fixed(TileType::T, 90));
    tiles.push(free());
    tiles.push(fixed(TileType::T, 180));
    tiles.push(free());
    tiles.push(fixed(TileType::T, -90));
    tiles.push(free());
    tiles.push(fixed(TileType::T, -90));
    // sixth row
    tiles.push(free());
    tiles.push(free());
    tiles.push(free());
    tiles.push(free());
    tiles.push(free());
    tiles.push(free());
    tiles.push(free());
    // bottom row
    tiles.push(fixed(TileType::Corner, 180));
    tiles.push(free());
    tiles.push(fixed(TileType::T, 180));
    tiles.push(free());
    tiles.push(fixed(TileType::T, 180));
    tiles.push(free());
    tiles.push(fixed(TileType::Corner, -90));

    let mut spawn_positions: Vec<SpawnPosition> = Vec::new();
    spawn_positions.push(SpawnPosition::Position(GridPosition { x_pos: 0, y_pos: 0 }));
    spawn_positions.push(SpawnPosition::Position(GridPosition { x_pos: 0, y_pos: 6 }));
    spawn_positions.push(SpawnPosition::Position(GridPosition { x_pos: 6, y_pos: 6 }));
    spawn_positions.push(SpawnPosition::Position(GridPosition { x_pos: 6, y_pos: 0 }));

    let mut treasure_positions: Vec<SpawnPosition> = Vec::new();
    treasure_positions.push(SpawnPosition::Any);
    treasure_positions.push(SpawnPosition::Any);
    treasure_positions.push(SpawnPosition::Any);
    treasure_positions.push(SpawnPosition::Any);

    proof {
        assert(tiles@ =~= spec_board_classic_tiles());
        assert(spawn_positions@ =~= spec_corner_spawns(6));
        assert(treasure_positions@ =~= spec_open_treasures());
    }
    Board {
        rows: 7,
        cols: 7,
        tiles,
        spawn_positions,
        treasure_positions,
        external_tile: TileInfo { tile_type: TileType::Corner, angle: 0, can_move: CanMove::Yes },
    }
}

} // verus!
