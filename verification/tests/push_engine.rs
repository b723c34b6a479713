use labyrinth_core::board::{Board, CanMove, GridPosition, SelectedBoard, TileInfo};
use labyrinth_core::phases::GamePhase;
use labyrinth_core::player::{Player, PlayerBundle};
use labyrinth_core::push::{
    compute_illegal_pushes, contains_pos, find_external_pos, get_opposite_pos, move_current_tile,
    push_tile, tile_move_ok, trigger_push, IllegalPushPositions, PushKeys, TileKeys,
};
use labyrinth_core::tile::{shape_ways, Direction, OpenWays, TileBundle, TileType};
use labyrinth_core::treasure::{Treasure, TreasureBundle};

fn gp(x: i32, y: i32) -> GridPosition {
    GridPosition { x_pos: x, y_pos: y }
}

fn tile(x: i32, y: i32) -> TileBundle {
    TileBundle {
        tile_type: TileType::Straight,
        pos: gp(x, y),
        can_move: CanMove::Yes,
        open_ways: shape_ways(TileType::Straight),
    }
}

fn free_cell() -> TileInfo {
    TileInfo { tile_type: TileType::Any, angle: 0, can_move: CanMove::Yes }
}

fn small_board(rows: usize, cols: usize) -> SelectedBoard {
    let mut tiles = Vec::new();
    for _ in 0..rows * cols {
        tiles.push(free_cell());
    }
    SelectedBoard {
        board: Board {
            rows,
            cols,
            tiles,
            spawn_positions: Vec::new(),
            treasure_positions: Vec::new(),
            external_tile: free_cell(),
        },
    }
}

/// A full 3 by 3 board with the external tile at `ext`.
fn grid_with_external(ext: GridPosition) -> Vec<TileBundle> {
    let mut tiles = Vec::new();
    for y in 0..3 {
        for x in 0..3 {
            tiles.push(tile(x, y));
        }
    }
    tiles.push(tile(ext.x_pos, ext.y_pos));
    tiles
}

fn no_keys() -> PushKeys {
    PushKeys {
        return_just_pressed: false,
        s_pressed: false,
        s_just_pressed: false,
        s_just_released: false,
    }
}

#[test]
fn orbit_bounds() {
    // on the left border, moving further left is out
    assert!(!tile_move_ok(&gp(-1, 1), Direction::Left, 2, 2));
    assert!(tile_move_ok(&gp(-1, 1), Direction::Up, 2, 2));
    assert!(tile_move_ok(&gp(-1, 1), Direction::Right, 2, 2));
    // at the top border, no further up
    assert!(!tile_move_ok(&gp(1, 3), Direction::Up, 2, 2));
    assert!(tile_move_ok(&gp(1, 3), Direction::Down, 2, 2));
    // at the bottom border, no further down
    assert!(!tile_move_ok(&gp(1, -1), Direction::Down, 2, 2));
    // at the right border, no further right
    assert!(!tile_move_ok(&gp(3, 1), Direction::Right, 2, 2));
}

fn orbit_once(start: GridPosition, keys: TileKeys) -> GridPosition {
    let sb = small_board(3, 3);
    let mut tiles = vec![tile(start.x_pos, start.y_pos)];
    let phase = GamePhase { current_player_id: 0, tile_push_phase: true, has_ended: false };
    move_current_tile(&mut tiles, &phase, &sb, keys);
    tiles[0].pos
}

#[test]
fn orbit_moves_along_edge_and_turns_corners() {
    let up = TileKeys { up: true, down: false, left: false, right: false, rotate: false };
    let down = TileKeys { up: false, down: true, left: false, right: false, rotate: false };
    let right = TileKeys { up: false, down: false, left: false, right: true, rotate: false };
    let left = TileKeys { up: false, down: false, left: true, right: false, rotate: false };

    // along the left edge
    assert_eq!(orbit_once(gp(-1, 0), up), gp(-1, 1));
    // left edge, top corner: turn onto the top edge
    assert_eq!(orbit_once(gp(-1, 2), up), gp(0, 3));
    // bottom edge going up: cross to the top border
    assert_eq!(orbit_once(gp(1, -1), up), gp(1, 3));
    // top edge going down: cross to the bottom border
    assert_eq!(orbit_once(gp(1, 3), down), gp(1, -1));
    // bottom-left corner of the bottom edge going left... the corner turn
    assert_eq!(orbit_once(gp(0, -1), left), gp(-1, 0));
    // left edge going right: cross to the right border
    assert_eq!(orbit_once(gp(-1, 1), right), gp(3, 1));
    // right edge, bottom corner reached from the top edge
    assert_eq!(orbit_once(gp(2, 3), right), gp(3, 2));
}

#[test]
fn orbit_rotate_key_turns_spare_clockwise() {
    let sb = small_board(3, 3);
    let mut tiles = vec![TileBundle {
        tile_type: TileType::Corner,
        pos: gp(-1, 0),
        can_move: CanMove::Yes,
        open_ways: shape_ways(TileType::Corner),
    }];
    let phase = GamePhase { current_player_id: 0, tile_push_phase: true, has_ended: false };
    let keys = TileKeys { up: false, down: false, left: false, right: false, rotate: true };
    move_current_tile(&mut tiles, &phase, &sb, keys);
    assert_eq!(
        tiles[0].open_ways,
        labyrinth_core::tile::rotate_ways(shape_ways(TileType::Corner), -90)
    );
    assert_eq!(tiles[0].pos, gp(-1, 0));
}

#[test]
fn orbit_only_in_push_phase() {
    let sb = small_board(3, 3);
    let mut tiles = vec![tile(-1, 0)];
    let phase = GamePhase { current_player_id: 0, tile_push_phase: false, has_ended: false };
    let keys = TileKeys { up: true, down: false, left: false, right: false, rotate: true };
    move_current_tile(&mut tiles, &phase, &sb, keys);
    assert_eq!(tiles[0].pos, gp(-1, 0));
    assert_eq!(tiles[0].open_ways, shape_ways(TileType::Straight));
}

#[test]
fn opposite_positions() {
    assert_eq!(get_opposite_pos(&gp(-1, 1), 2, 2), gp(3, 1));
    assert_eq!(get_opposite_pos(&gp(3, 1), 2, 2), gp(-1, 1));
    assert_eq!(get_opposite_pos(&gp(1, -1), 2, 2), gp(1, 3));
    assert_eq!(get_opposite_pos(&gp(1, 3), 2, 2), gp(1, -1));
    // a position on no border comes back unchanged
    assert_eq!(get_opposite_pos(&gp(1, 1), 2, 2), gp(1, 1));
}

// A committed push from the left border: the whole row shifts one cell
// to the right, the far tile is evicted to the border, and entities on
// the row ride along.
#[test]
fn push_from_left_shifts_row() {
    let mut tiles = grid_with_external(gp(-1, 0));
    let mut players = vec![PlayerBundle {
        player: Player { id: 0 },
        pos: gp(1, 0),
        can_move: CanMove::No,
    }];
    let mut treasures = vec![TreasureBundle { treasure: Treasure { id: 0 }, pos: gp(2, 2) }];
    push_tile(&mut tiles, &mut players, &mut treasures, gp(-1, 0), 2, 2);

    // every tile with y == 0 moved one step right, including the external one
    for t in &tiles {
        if t.pos.y_pos == 0 {
            assert!(t.pos.x_pos >= 0);
        }
    }
    // the tile that sat at (2, 0) is now the external tile at (3, 0)
    assert_eq!(find_external_pos(&tiles, 2, 2), gp(3, 0));
    // rows other than y == 0 did not move
    assert_eq!(tiles[3].pos, gp(0, 1));
    // the player on the row rode along; the treasure off the row did not
    assert_eq!(players[0].pos, gp(2, 0));
    assert_eq!(treasures[0].pos, gp(2, 2));
}

// Simulate-then-reverse restores every position and orientation.
#[test]
fn push_round_trip_restores_positions() {
    let mut tiles = grid_with_external(gp(-1, 1));
    let mut players: Vec<PlayerBundle> = Vec::new();
    let mut treasures: Vec<TreasureBundle> = Vec::new();
    let before = tiles.clone();

    push_tile(&mut tiles, &mut players, &mut treasures, gp(-1, 1), 2, 2);
    // after the push the external slot has crossed to the opposite border
    let new_ext = find_external_pos(&tiles, 2, 2);
    assert_eq!(new_ext, get_opposite_pos(&gp(-1, 1), 2, 2));
    push_tile(&mut tiles, &mut players, &mut treasures, new_ext, 2, 2);

    for (a, b) in before.iter().zip(tiles.iter()) {
        assert_eq!(a.pos, b.pos);
        assert_eq!(a.open_ways, b.open_ways);
        assert_eq!(a.tile_type, b.tile_type);
    }
}

#[test]
fn trigger_push_simulation_keys_round_trip() {
    let sb = small_board(3, 3);
    let tiles0 = grid_with_external(gp(-1, 1));
    let mut tiles = tiles0.clone();
    let mut players: Vec<PlayerBundle> = Vec::new();
    let mut treasures: Vec<TreasureBundle> = Vec::new();
    let mut phase = GamePhase { current_player_id: 0, tile_push_phase: true, has_ended: false };
    let mut illegal = IllegalPushPositions { fresh_pos_on_top: false, positions: Vec::new() };

    // press the simulate key: the line shifts
    let press = PushKeys { s_pressed: true, s_just_pressed: true, ..no_keys() };
    trigger_push(&mut tiles, &mut players, &mut treasures, &sb, press, &mut phase, &mut illegal);
    assert_eq!(find_external_pos(&tiles, 2, 2), gp(3, 1));
    assert!(phase.tile_push_phase);
    assert!(illegal.positions.is_empty());

    // release it: the shift is applied again from the opposite side, and
    // every tile is back where it started
    let release = PushKeys { s_just_released: true, ..no_keys() };
    trigger_push(&mut tiles, &mut players, &mut treasures, &sb, release, &mut phase, &mut illegal);
    for (a, b) in tiles0.iter().zip(tiles.iter()) {
        assert_eq!(a.pos, b.pos);
        assert_eq!(a.open_ways, b.open_ways);
    }
    assert!(phase.tile_push_phase);
}

// The transient forbidden slot: one committed push records the slot
// opposite the one used; the next committed push replaces it, so at most
// one such entry ever exists.
#[test]
fn committed_push_records_single_fresh_slot() {
    let sb = small_board(3, 3);
    let mut tiles = grid_with_external(gp(-1, 0));
    let mut players: Vec<PlayerBundle> = Vec::new();
    let mut treasures: Vec<TreasureBundle> = Vec::new();
    let mut phase = GamePhase { current_player_id: 0, tile_push_phase: true, has_ended: false };
    let mut illegal = IllegalPushPositions { fresh_pos_on_top: false, positions: Vec::new() };

    let commit = PushKeys { return_just_pressed: true, ..no_keys() };
    trigger_push(&mut tiles, &mut players, &mut treasures, &sb, commit, &mut phase, &mut illegal);
    assert!(!phase.tile_push_phase);
    assert!(illegal.fresh_pos_on_top);
    assert_eq!(illegal.positions.len(), 1);
    assert_eq!(illegal.positions[0], gp(3, 0));

    // move the spare to the bottom border and push again next turn
    phase.tile_push_phase = true;
    let ext = find_external_pos(&tiles, 2, 2);
    assert_eq!(ext, gp(3, 0));
    // the slot opposite the spare is exactly the forbidden one: pushing is refused
    let before = tiles.clone();
    trigger_push(
        &mut tiles,
        &mut players,
        &mut treasures,
        &sb,
        PushKeys { return_just_pressed: true, ..no_keys() },
        &mut phase,
        &mut illegal,
    );
    // the spare sits on a forbidden slot, so nothing happened
    assert!(phase.tile_push_phase);
    for (a, b) in before.iter().zip(tiles.iter()) {
        assert_eq!(a.pos, b.pos);
    }

    // orbit the spare one step, then commit: the old entry is evicted
    let keys_up = TileKeys { up: true, down: false, left: false, right: false, rotate: false };
    move_current_tile(&mut tiles, &phase, &sb, keys_up);
    let ext2 = find_external_pos(&tiles, 2, 2);
    assert_eq!(ext2, gp(3, 1));
    trigger_push(
        &mut tiles,
        &mut players,
        &mut treasures,
        &sb,
        PushKeys { return_just_pressed: true, ..no_keys() },
        &mut phase,
        &mut illegal,
    );
    assert!(!phase.tile_push_phase);
    assert_eq!(illegal.positions.len(), 1);
    assert_eq!(illegal.positions[0], gp(-1, 1));
    assert!(!contains_pos(&illegal.positions, gp(3, 0)));
}

#[test]
fn fixed_tiles_forbid_their_border_slots() {
    let sb = small_board(3, 3);
    let mut tiles = grid_with_external(gp(-1, 0));
    // fix the centre tile and one further tile on the same column
    tiles[4].can_move = CanMove::No; // (1, 1)
    tiles[7].can_move = CanMove::No; // (1, 2)
    let mut illegal = IllegalPushPositions { fresh_pos_on_top: false, positions: Vec::new() };
    compute_illegal_pushes(&tiles, &mut illegal, &sb);

    for p in [gp(-1, 1), gp(1, -1), gp(3, 1), gp(1, 3), gp(-1, 2), gp(3, 2)] {
        assert!(contains_pos(&illegal.positions, p));
    }
    // the shared column slots appear once each: 4 slots for the first
    // fixed tile, and only 2 new ones for the second
    assert_eq!(illegal.positions.len(), 6);
    assert!(!illegal.fresh_pos_on_top);
    assert!(!contains_pos(&illegal.positions, gp(-1, 0)));
}

#[test]
fn no_push_outside_push_phase_or_after_end() {
    let sb = small_board(3, 3);
    let tiles0 = grid_with_external(gp(-1, 0));
    let commit = PushKeys { return_just_pressed: true, ..no_keys() };

    let mut tiles = tiles0.clone();
    let mut players: Vec<PlayerBundle> = Vec::new();
    let mut treasures: Vec<TreasureBundle> = Vec::new();
    let mut illegal = IllegalPushPositions { fresh_pos_on_top: false, positions: Vec::new() };
    let mut move_phase = GamePhase { current_player_id: 0, tile_push_phase: false, has_ended: false };
    trigger_push(&mut tiles, &mut players, &mut treasures, &sb, commit, &mut move_phase, &mut illegal);
    assert_eq!(tiles[0].pos, tiles0[0].pos);
    assert!(illegal.positions.is_empty());

    let mut ended = GamePhase { current_player_id: 0, tile_push_phase: true, has_ended: true };
    trigger_push(&mut tiles, &mut players, &mut treasures, &sb, commit, &mut ended, &mut illegal);
    assert_eq!(find_external_pos(&tiles, 2, 2), gp(-1, 0));
}
