use labyrinth_core::board::{Board, CanMove, GridPosition, SelectedBoard, TileInfo};
use labyrinth_core::movement::{
    get_max_coords, move_current_player, player_move_ok, pos_is_external, warp_player, ways_at,
    PlayerKeys,
};
use labyrinth_core::phases::{check_phase, menu_transition, GamePhase, GameSettings, GameState};
use labyrinth_core::player::PlayerBundle;
use labyrinth_core::tile::{rotate_ways, shape_ways, spawn_tile, Direction, OpenWays, TileBundle, TileType};
use labyrinth_core::treasure::CollectedLists;

fn ways(top: bool, right: bool, bottom: bool, left: bool) -> OpenWays {
    OpenWays { top, right, bottom, left }
}

fn tile_at(x: i32, y: i32, w: OpenWays) -> TileBundle {
    TileBundle {
        tile_type: TileType::FourWay,
        pos: GridPosition { x_pos: x, y_pos: y },
        can_move: CanMove::Yes,
        open_ways: w,
    }
}

fn free_cell() -> TileInfo {
    TileInfo { tile_type: TileType::Any, angle: 0, can_move: CanMove::Yes }
}

fn small_board(rows: usize, cols: usize) -> SelectedBoard {
    let mut tiles = Vec::new();
    for _ in 0..rows * cols {
        tiles.push(free_cell());
    }
    SelectedBoard {
        board: Board {
            rows,
            cols,
            tiles,
            spawn_positions: Vec::new(),
            treasure_positions: Vec::new(),
            external_tile: free_cell(),
        },
    }
}

#[test]
fn rotate_full_circle_is_identity() {
    for shape in [
        TileType::Corner,
        TileType::Straight,
        TileType::T,
        TileType::FourWay,
        TileType::Block,
    ] {
        let w = shape_ways(shape);
        assert_eq!(rotate_ways(rotate_ways(w, 90), 270), w);
        assert_eq!(rotate_ways(rotate_ways(w, 180), 180), w);
    }
}

#[test]
fn rotate_quarter_turns() {
    // a corner opens bottom and left unrotated
    let corner = shape_ways(TileType::Corner);
    assert_eq!(corner, ways(false, false, true, true));
    // a quarter turn counter-clockwise moves the left opening to the bottom
    assert_eq!(rotate_ways(corner, 90), ways(false, true, true, false));
    // a quarter turn clockwise moves them the other way
    assert_eq!(rotate_ways(corner, -90), ways(true, false, false, true));
    // a half turn swaps opposite sides, from either direction
    assert_eq!(rotate_ways(corner, 180), ways(true, true, false, false));
    assert_eq!(rotate_ways(corner, -180), ways(true, true, false, false));
    // the 360-degree complements rotate the same way
    assert_eq!(rotate_ways(corner, -270), rotate_ways(corner, 90));
    assert_eq!(rotate_ways(corner, 270), rotate_ways(corner, -90));
}

#[test]
fn rotate_unknown_angle_is_noop() {
    let w = ways(true, false, true, false);
    assert_eq!(rotate_ways(w, 45), w);
    assert_eq!(rotate_ways(w, 0), w);
    assert_eq!(rotate_ways(w, 360), w);
    assert_eq!(rotate_ways(w, -1), w);
}

#[test]
fn shape_catalog() {
    assert_eq!(shape_ways(TileType::Straight), ways(false, true, false, true));
    assert_eq!(shape_ways(TileType::T), ways(false, true, true, true));
    assert_eq!(shape_ways(TileType::FourWay), ways(true, true, true, true));
    assert_eq!(shape_ways(TileType::Block), ways(false, false, false, false));
}

#[test]
fn spawn_tile_resolves_any_and_rotates() {
    let mut rng = rand::thread_rng();
    for _ in 0..20 {
        let t = spawn_tile(2, 3, TileType::Any, 90, CanMove::Yes, &mut rng);
        assert!(matches!(
            t.tile_type,
            TileType::Corner | TileType::Straight | TileType::T
        ));
        assert_eq!(t.pos, GridPosition { x_pos: 2, y_pos: 3 });
        assert_eq!(t.open_ways, rotate_ways(shape_ways(t.tile_type), 90));
    }
    let fixed = spawn_tile(0, 0, TileType::Corner, 90, CanMove::No, &mut rng);
    assert_eq!(fixed.tile_type, TileType::Corner);
    assert_eq!(fixed.open_ways, ways(false, true, true, false));
    assert!(matches!(fixed.can_move, CanMove::No));
}

#[test]
fn external_positions() {
    assert!(pos_is_external(&GridPosition { x_pos: -1, y_pos: 0 }, 2, 2));
    assert!(pos_is_external(&GridPosition { x_pos: 0, y_pos: -1 }, 2, 2));
    assert!(pos_is_external(&GridPosition { x_pos: 3, y_pos: 0 }, 2, 2));
    assert!(pos_is_external(&GridPosition { x_pos: 0, y_pos: 3 }, 2, 2));
    assert!(!pos_is_external(&GridPosition { x_pos: 0, y_pos: 0 }, 2, 2));
    assert!(!pos_is_external(&GridPosition { x_pos: 2, y_pos: 2 }, 2, 2));
}

#[test]
fn max_coords_follow_template_shape() {
    let sb = small_board(5, 7);
    assert_eq!(get_max_coords(&sb), (6, 4));
}

#[test]
fn ways_at_missing_tile_reads_closed() {
    let tiles: Vec<TileBundle> = vec![tile_at(0, 0, ways(true, true, true, true))];
    let w = ways_at(&tiles, GridPosition { x_pos: 1, y_pos: 1 });
    assert_eq!(w, ways(false, false, false, false));
}

// A minimal board: a corner open only bottom and left at the origin.
// Moving right from it must fail even though the neighbour is wide open,
// and the player must stay where they were.
#[test]
fn corner_blocks_move_right() {
    let sb = small_board(2, 2);
    let tiles = vec![
        tile_at(0, 0, shape_ways(TileType::Corner)),
        tile_at(1, 0, ways(true, true, true, true)),
    ];
    assert!(!player_move_ok(
        GridPosition { x_pos: 0, y_pos: 0 },
        Direction::Right,
        &tiles,
        &sb
    ));

    let mut players = vec![PlayerBundle {
        player: labyrinth_core::player::Player { id: 0 },
        pos: GridPosition { x_pos: 0, y_pos: 0 },
        can_move: CanMove::Yes,
    }];
    let phase = GamePhase { current_player_id: 0, tile_push_phase: false, has_ended: false };
    let keys = PlayerKeys { up: false, down: false, left: false, right: true };
    move_current_player(&mut players, &tiles, &phase, keys, &sb);
    assert_eq!(players[0].pos, GridPosition { x_pos: 0, y_pos: 0 });
}

#[test]
fn step_onto_external_slot_is_illegal() {
    let sb = small_board(2, 2);
    let tiles = vec![
        tile_at(0, 0, ways(true, true, true, true)),
        tile_at(-1, 0, ways(true, true, true, true)),
    ];
    // everything is open, yet the destination is off the board
    assert!(!player_move_ok(GridPosition { x_pos: 0, y_pos: 0 }, Direction::Left, &tiles, &sb));
}

// An open connection reads the same from both ends.
#[test]
fn can_step_is_symmetric() {
    let sb = small_board(2, 2);
    let tiles = vec![
        tile_at(0, 0, ways(false, true, false, false)),
        tile_at(1, 0, ways(false, false, false, true)),
    ];
    let from = GridPosition { x_pos: 0, y_pos: 0 };
    let dest = GridPosition { x_pos: 1, y_pos: 0 };
    assert!(player_move_ok(from, Direction::Right, &tiles, &sb));
    assert!(player_move_ok(dest, Direction::Left, &tiles, &sb));

    // close one end: both directions turn illegal together
    let tiles2 = vec![
        tile_at(0, 0, ways(false, false, false, false)),
        tile_at(1, 0, ways(false, false, false, true)),
    ];
    assert!(!player_move_ok(from, Direction::Right, &tiles2, &sb));
    assert!(!player_move_ok(dest, Direction::Left, &tiles2, &sb));
}

#[test]
fn move_priority_right_wins() {
    let sb = small_board(2, 2);
    let all_open = ways(true, true, true, true);
    let tiles = vec![
        tile_at(0, 0, all_open),
        tile_at(1, 0, all_open),
        tile_at(0, 1, all_open),
        tile_at(1, 1, all_open),
    ];
    let mut players = vec![PlayerBundle {
        player: labyrinth_core::player::Player { id: 0 },
        pos: GridPosition { x_pos: 0, y_pos: 0 },
        can_move: CanMove::Yes,
    }];
    let phase = GamePhase { current_player_id: 0, tile_push_phase: false, has_ended: false };
    // both right and up are held and legal: only one step, and right wins
    let keys = PlayerKeys { up: true, down: false, left: false, right: true };
    move_current_player(&mut players, &tiles, &phase, keys, &sb);
    assert_eq!(players[0].pos, GridPosition { x_pos: 1, y_pos: 0 });
}

#[test]
fn no_move_during_push_phase_or_after_end() {
    let sb = small_board(2, 2);
    let all_open = ways(true, true, true, true);
    let tiles = vec![tile_at(0, 0, all_open), tile_at(1, 0, all_open)];
    let keys = PlayerKeys { up: false, down: false, left: false, right: true };

    let mut players = vec![PlayerBundle {
        player: labyrinth_core::player::Player { id: 0 },
        pos: GridPosition { x_pos: 0, y_pos: 0 },
        can_move: CanMove::Yes,
    }];
    let push_phase = GamePhase { current_player_id: 0, tile_push_phase: true, has_ended: false };
    move_current_player(&mut players, &tiles, &push_phase, keys, &sb);
    assert_eq!(players[0].pos, GridPosition { x_pos: 0, y_pos: 0 });

    let ended = GamePhase { current_player_id: 0, tile_push_phase: false, has_ended: true };
    move_current_player(&mut players, &tiles, &ended, keys, &sb);
    assert_eq!(players[0].pos, GridPosition { x_pos: 0, y_pos: 0 });
}

#[test]
fn warp_wraps_toroidally() {
    let sb = small_board(3, 3);
    let mk = |x: i32, y: i32| PlayerBundle {
        player: labyrinth_core::player::Player { id: 0 },
        pos: GridPosition { x_pos: x, y_pos: y },
        can_move: CanMove::No,
    };
    let mut players = vec![mk(-1, 1), mk(1, -1), mk(3, 2), mk(2, 3), mk(1, 1)];
    warp_player(&mut players, &sb);
    assert_eq!(players[0].pos, GridPosition { x_pos: 2, y_pos: 1 });
    assert_eq!(players[1].pos, GridPosition { x_pos: 1, y_pos: 2 });
    assert_eq!(players[2].pos, GridPosition { x_pos: 0, y_pos: 2 });
    assert_eq!(players[3].pos, GridPosition { x_pos: 2, y_pos: 0 });
    assert_eq!(players[4].pos, GridPosition { x_pos: 1, y_pos: 1 });
}

#[test]
fn menu_transitions() {
    assert_eq!(menu_transition(GameState::MainMenu, true, false), GameState::Playing);
    assert_eq!(menu_transition(GameState::MainMenu, false, true), GameState::MainMenu);
    assert_eq!(menu_transition(GameState::Playing, false, true), GameState::MainMenu);
    assert_eq!(menu_transition(GameState::Playing, false, false), GameState::Playing);
}

#[test]
fn check_phase_recomputes_can_move() {
    let settings = GameSettings { num_players: 2, treasures_to_get: 1 };
    let collected = CollectedLists { lists: vec![vec![], vec![]] };
    let mk = |id: i32| PlayerBundle {
        player: labyrinth_core::player::Player { id },
        pos: GridPosition { x_pos: 0, y_pos: 0 },
        can_move: CanMove::No,
    };
    let mut players = vec![mk(0), mk(1)];
    let mut phase = GamePhase { current_player_id: 1, tile_push_phase: false, has_ended: false };
    check_phase(&mut players, &mut phase, &collected, &settings, false);
    assert!(matches!(players[0].can_move, CanMove::No));
    assert!(matches!(players[1].can_move, CanMove::Yes));

    // in the push phase, or once the game has ended, nobody may move
    let mut phase2 = GamePhase { current_player_id: 1, tile_push_phase: true, has_ended: false };
    check_phase(&mut players, &mut phase2, &collected, &settings, false);
    assert!(matches!(players[1].can_move, CanMove::No));
    let mut phase3 = GamePhase { current_player_id: 1, tile_push_phase: false, has_ended: true };
    check_phase(&mut players, &mut phase3, &collected, &settings, false);
    assert!(matches!(players[1].can_move, CanMove::No));
}

#[test]
fn check_phase_end_turn_key_advances() {
    let settings = GameSettings { num_players: 2, treasures_to_get: 1 };
    let collected = CollectedLists { lists: vec![vec![], vec![]] };
    let mut players = Vec::new();
    let mut phase = GamePhase { current_player_id: 0, tile_push_phase: false, has_ended: false };
    check_phase(&mut players, &mut phase, &collected, &settings, true);
    assert_eq!(phase.current_player_id, 1);
    assert!(phase.tile_push_phase);
    assert!(!phase.has_ended);
}
