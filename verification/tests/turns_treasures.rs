use labyrinth_core::actors::{random_free_pos, SpawnPosition};
use labyrinth_core::board::{Board, CanMove, GridPosition, SelectedBoard, TileInfo};
use labyrinth_core::boards_repository::{board_0, board_classic};
use labyrinth_core::board::{select_board, spawn_board};
use labyrinth_core::phases::{end_turn, GamePhase, GameSettings};
use labyrinth_core::player::{spawn_all_players, Player, PlayerBundle};
use labyrinth_core::tile::{rotate_ways, shape_ways, TileBundle, TileType};
use labyrinth_core::treasure::{
    collect_treasure, init_treasure_lists, move_treasure_with_ext_tile, reset_lists,
    spawn_all_treasures, spawn_treasure, CollectedLists, Treasure, TreasureBundle, TreasureLists,
};

fn gp(x: i32, y: i32) -> GridPosition {
    GridPosition { x_pos: x, y_pos: y }
}

fn free_cell() -> TileInfo {
    TileInfo { tile_type: TileType::Any, angle: 0, can_move: CanMove::Yes }
}

fn small_board(rows: usize, cols: usize) -> SelectedBoard {
    let mut tiles = Vec::new();
    for _ in 0..rows * cols {
        tiles.push(free_cell());
    }
    SelectedBoard {
        board: Board {
            rows,
            cols,
            tiles,
            spawn_positions: Vec::new(),
            treasure_positions: Vec::new(),
            external_tile: free_cell(),
        },
    }
}

fn player(id: i32, x: i32, y: i32) -> PlayerBundle {
    PlayerBundle { player: Player { id }, pos: gp(x, y), can_move: CanMove::Yes }
}

// Turn advance skips exactly the players whose collected list is full.
#[test]
fn end_turn_skips_finished_players() {
    let settings = GameSettings { num_players: 4, treasures_to_get: 2 };
    // players 1 and 3 are finished, 2 is not
    let collected = CollectedLists {
        lists: vec![vec![], vec![10, 11], vec![12], vec![13, 14]],
    };
    let mut phase = GamePhase { current_player_id: 0, tile_push_phase: false, has_ended: false };
    let skipped = end_turn(&mut phase, &collected, &settings);
    assert_eq!(skipped, 1);
    assert_eq!(phase.current_player_id, 2);
    assert!(phase.tile_push_phase);
    assert!(!phase.has_ended);
}

#[test]
fn end_turn_wraps_around() {
    let settings = GameSettings { num_players: 3, treasures_to_get: 1 };
    // only player 0 still plays; from player 0's turn the advance wraps
    // past players 1 and 2 back to player 0
    let collected = CollectedLists { lists: vec![vec![], vec![5], vec![6]] };
    let mut phase = GamePhase { current_player_id: 0, tile_push_phase: false, has_ended: false };
    let skipped = end_turn(&mut phase, &collected, &settings);
    assert_eq!(skipped, 2);
    assert_eq!(phase.current_player_id, 0);
    assert!(!phase.has_ended);
}

#[test]
fn end_turn_all_finished_ends_game() {
    let settings = GameSettings { num_players: 4, treasures_to_get: 1 };
    let collected = CollectedLists { lists: vec![vec![0], vec![1], vec![2], vec![3]] };
    let mut phase = GamePhase { current_player_id: 3, tile_push_phase: false, has_ended: false };
    end_turn(&mut phase, &collected, &settings);
    assert!(phase.has_ended);
    assert_eq!(phase.current_player_id, 0);
}

// Four players needing one treasure each: players 0 to 2 are already
// done; when player 3 collects theirs, the game ends immediately on the
// turn advance inside the collection, with no further turn dispatched.
#[test]
fn last_player_finishing_ends_game() {
    let settings = GameSettings { num_players: 4, treasures_to_get: 1 };
    let players = vec![player(3, 1, 1)];
    let mut treasures = vec![TreasureBundle { treasure: Treasure { id: 9 }, pos: gp(1, 1) }];
    let mut treasure_lists = TreasureLists {
        lists: vec![vec![], vec![], vec![], vec![9]],
    };
    let mut collected_lists = CollectedLists {
        lists: vec![vec![0], vec![1], vec![2], vec![]],
    };
    let mut phase = GamePhase { current_player_id: 3, tile_push_phase: false, has_ended: false };
    collect_treasure(
        &players,
        &mut treasures,
        &mut treasure_lists,
        &mut collected_lists,
        &mut phase,
        &settings,
    );
    assert!(treasures.is_empty());
    assert_eq!(collected_lists.lists[3], vec![9]);
    assert!(phase.has_ended);
}

// The queue is collected from the back: with queue [3, 7, 1] the first
// objective is 1, then 7, then 3. Standing on 7 while 1 is owed does
// nothing; after collecting 1, standing on 7 collects it.
#[test]
fn collection_order_is_strict() {
    let settings = GameSettings { num_players: 1, treasures_to_get: 3 };
    let mut treasure_lists = TreasureLists { lists: vec![vec![3, 7, 1]] };
    let mut collected_lists = CollectedLists { lists: vec![vec![]] };
    let mut treasures = vec![
        TreasureBundle { treasure: Treasure { id: 3 }, pos: gp(0, 0) },
        TreasureBundle { treasure: Treasure { id: 7 }, pos: gp(1, 1) },
        TreasureBundle { treasure: Treasure { id: 1 }, pos: gp(2, 2) },
    ];
    let mut phase = GamePhase { current_player_id: 0, tile_push_phase: false, has_ended: false };

    // standing on treasure 7 while the queue's last element is 1: no effect
    let on_seven = vec![player(0, 1, 1)];
    collect_treasure(
        &on_seven,
        &mut treasures,
        &mut treasure_lists,
        &mut collected_lists,
        &mut phase,
        &settings,
    );
    assert_eq!(treasures.len(), 3);
    assert_eq!(treasure_lists.lists[0], vec![3, 7, 1]);
    assert_eq!(collected_lists.lists[0], Vec::<i32>::new());

    // standing on treasure 1 collects it and the turn advances
    let on_one = vec![player(0, 2, 2)];
    collect_treasure(
        &on_one,
        &mut treasures,
        &mut treasure_lists,
        &mut collected_lists,
        &mut phase,
        &settings,
    );
    assert_eq!(treasures.len(), 2);
    assert_eq!(treasure_lists.lists[0], vec![3, 7]);
    assert_eq!(collected_lists.lists[0], vec![1]);
    assert!(phase.tile_push_phase);
    assert_eq!(phase.current_player_id, 0);

    // now 7 is owed and standing on it succeeds
    phase.tile_push_phase = false;
    let on_seven_again = vec![player(0, 1, 1)];
    collect_treasure(
        &on_seven_again,
        &mut treasures,
        &mut treasure_lists,
        &mut collected_lists,
        &mut phase,
        &settings,
    );
    assert_eq!(treasure_lists.lists[0], vec![3]);
    assert_eq!(collected_lists.lists[0], vec![1, 7]);
}

#[test]
fn no_collection_after_game_end_or_for_other_players() {
    let settings = GameSettings { num_players: 2, treasures_to_get: 1 };
    let mut treasure_lists = TreasureLists { lists: vec![vec![0], vec![1]] };
    let mut collected_lists = CollectedLists { lists: vec![vec![], vec![]] };
    let mut treasures = vec![TreasureBundle { treasure: Treasure { id: 1 }, pos: gp(0, 0) }];

    // player 1 stands on their treasure, but it is player 0's turn
    let players = vec![player(1, 0, 0)];
    let mut phase = GamePhase { current_player_id: 0, tile_push_phase: false, has_ended: false };
    collect_treasure(
        &players,
        &mut treasures,
        &mut treasure_lists,
        &mut collected_lists,
        &mut phase,
        &settings,
    );
    assert_eq!(treasures.len(), 1);

    // their turn, but the game has ended
    let mut ended = GamePhase { current_player_id: 1, tile_push_phase: false, has_ended: true };
    collect_treasure(
        &players,
        &mut treasures,
        &mut treasure_lists,
        &mut collected_lists,
        &mut ended,
        &mut settings.clone(),
    );
    assert_eq!(treasures.len(), 1);
}

// The dealt queues are a partition of all treasure ids into equal
// chunks, whatever order the shuffle produced.
#[test]
fn treasure_lists_partition_all_ids() {
    let mut rng = rand::thread_rng();
    let settings = GameSettings { num_players: 3, treasures_to_get: 4 };
    let (tl, cl) = init_treasure_lists(&settings, &mut rng);
    assert_eq!(tl.lists.len(), 3);
    assert_eq!(cl.lists.len(), 3);
    let mut all: Vec<i32> = Vec::new();
    for (q, c) in tl.lists.iter().zip(cl.lists.iter()) {
        assert_eq!(q.len(), 4);
        assert!(c.is_empty());
        all.extend_from_slice(q);
    }
    all.sort();
    assert_eq!(all, (0..12).collect::<Vec<i32>>());
}

#[test]
fn treasures_follow_external_tile() {
    let sb = small_board(3, 3);
    let tiles = vec![TileBundle {
        tile_type: TileType::Straight,
        pos: gp(3, 1),
        can_move: CanMove::Yes,
        open_ways: shape_ways(TileType::Straight),
    }];
    let mut treasures = vec![
        TreasureBundle { treasure: Treasure { id: 0 }, pos: gp(3, 0) },
        TreasureBundle { treasure: Treasure { id: 1 }, pos: gp(1, 1) },
    ];
    move_treasure_with_ext_tile(&tiles, &mut treasures, &sb);
    // the off-board treasure snapped to the external tile; the other stayed
    assert_eq!(treasures[0].pos, gp(3, 1));
    assert_eq!(treasures[1].pos, gp(1, 1));
}

#[test]
fn spawn_board_inverts_template_rows() {
    let mut rng = rand::thread_rng();
    let mut tiles = Vec::new();
    // a 2 by 2 template: the top row holds a T and a corner
    tiles.push(TileInfo { tile_type: TileType::T, angle: 0, can_move: CanMove::No });
    tiles.push(TileInfo { tile_type: TileType::Corner, angle: 90, can_move: CanMove::No });
    tiles.push(TileInfo { tile_type: TileType::Straight, angle: 0, can_move: CanMove::Yes });
    tiles.push(TileInfo { tile_type: TileType::FourWay, angle: 0, can_move: CanMove::Yes });
    let sb = SelectedBoard {
        board: Board {
            rows: 2,
            cols: 2,
            tiles,
            spawn_positions: Vec::new(),
            treasure_positions: Vec::new(),
            external_tile: TileInfo { tile_type: TileType::Block, angle: 0, can_move: CanMove::Yes },
        },
    };
    let spawned = spawn_board(&sb, &mut rng);
    assert_eq!(spawned.len(), 5);
    // template row 0 (the top) lands on grid row 1
    assert_eq!(spawned[0].pos, gp(0, 1));
    assert_eq!(spawned[0].tile_type, TileType::T);
    assert_eq!(spawned[1].pos, gp(1, 1));
    assert_eq!(spawned[1].tile_type, TileType::Corner);
    assert_eq!(spawned[1].open_ways, rotate_ways(shape_ways(TileType::Corner), 90));
    // template row 1 (the bottom) lands on grid row 0
    assert_eq!(spawned[2].pos, gp(0, 0));
    assert_eq!(spawned[3].pos, gp(1, 0));
    // the external tile starts one step off the left border
    assert_eq!(spawned[4].pos, gp(-1, 0));
    assert_eq!(spawned[4].tile_type, TileType::Block);
}

#[test]
fn spawn_players_and_treasures_respect_template() {
    let mut rng = rand::thread_rng();
    let settings = GameSettings { num_players: 4, treasures_to_get: 1 };
    let mut sb = small_board(5, 5);
    sb.board.spawn_positions = vec![
        SpawnPosition::Position(gp(0, 0)),
        SpawnPosition::Position(gp(4, 4)),
    ];
    sb.board.treasure_positions = vec![SpawnPosition::Position(gp(2, 2)), SpawnPosition::Any];

    let players = spawn_all_players(&settings, &sb, &mut rng);
    assert_eq!(players.len(), 4);
    assert_eq!(players[0].pos, gp(0, 0));
    assert_eq!(players[1].pos, gp(4, 4));
    for (k, p) in players.iter().enumerate() {
        assert_eq!(p.player.id, k as i32);
        assert!(matches!(p.can_move, CanMove::No));
        assert!(p.pos.x_pos >= 0 && p.pos.x_pos <= 4);
        assert!(p.pos.y_pos >= 0 && p.pos.y_pos <= 4);
    }

    let treasures = spawn_all_treasures(&settings, &sb, &mut rng);
    assert_eq!(treasures.len(), 4);
    assert_eq!(treasures[0].pos, gp(2, 2));
    for (k, t) in treasures.iter().enumerate() {
        assert_eq!(t.treasure.id, k as i32);
        assert!(t.pos.x_pos >= 0 && t.pos.x_pos <= 4);
        assert!(t.pos.y_pos >= 0 && t.pos.y_pos <= 4);
    }
}

#[test]
fn random_spawns_do_not_collide_while_cells_remain() {
    let mut rng = rand::thread_rng();
    for _ in 0..20 {
        let mut sb = small_board(3, 3);
        sb.board.spawn_positions = vec![SpawnPosition::Position(gp(0, 0))];

        // four players on nine cells: all cells distinct
        let settings = GameSettings { num_players: 4, treasures_to_get: 1 };
        let players = spawn_all_players(&settings, &sb, &mut rng);
        for a in 0..players.len() {
            for b in 0..a {
                assert_ne!(players[a].pos, players[b].pos);
            }
        }

        // three randomly placed treasures: distinct cells, none on the
        // fixed player spawn
        let tsettings = GameSettings { num_players: 1, treasures_to_get: 3 };
        let treasures = spawn_all_treasures(&tsettings, &sb, &mut rng);
        for a in 0..treasures.len() {
            assert_ne!(treasures[a].pos, gp(0, 0));
            for b in 0..a {
                assert_ne!(treasures[a].pos, treasures[b].pos);
            }
        }
    }
}

#[test]
fn free_pos_picks_the_only_free_cell() {
    let mut rng = rand::thread_rng();
    let sb = small_board(1, 2);
    let used = vec![gp(0, 0)];
    let avoid: Vec<GridPosition> = Vec::new();
    // with one of two cells used, the draw can only return the other
    assert_eq!(random_free_pos(&sb, &used, &avoid, &mut rng), Some(gp(1, 0)));
    let both = vec![gp(0, 0), gp(1, 0)];
    assert_eq!(random_free_pos(&sb, &both, &avoid, &mut rng), None);
}

#[test]
fn board_templates_are_well_formed() {
    let b0 = board_0();
    assert_eq!((b0.rows, b0.cols), (5, 5));
    assert_eq!(b0.tiles.len(), 25);
    assert_eq!(b0.spawn_positions.len(), 4);
    assert_eq!(b0.external_tile.tile_type, TileType::Corner);
    // the top-left template cell is a fixed corner rotated a quarter turn
    assert_eq!(
        b0.tile_at(0, 0),
        TileInfo { tile_type: TileType::Corner, angle: 90, can_move: CanMove::No }
    );

    let bc = board_classic();
    assert_eq!((bc.rows, bc.cols), (7, 7));
    assert_eq!(bc.tiles.len(), 49);
    assert_eq!(
        bc.tile_at(2, 4),
        TileInfo { tile_type: TileType::T, angle: 0, can_move: CanMove::No }
    );

    let selected = select_board();
    assert_eq!(selected.board.rows, 7);
}

#[test]
fn spawn_single_tokens_and_reset() {
    let t = spawn_treasure(5, 1, 2);
    assert_eq!(t.treasure.id, 5);
    assert_eq!(t.pos, gp(1, 2));

    let mut tl = TreasureLists { lists: vec![vec![1]] };
    let mut cl = CollectedLists { lists: vec![vec![2]] };
    reset_lists(&mut tl, &mut cl);
    assert!(tl.lists.is_empty());
    assert!(cl.lists.is_empty());
}
