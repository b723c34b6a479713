//! Players: the token identity and the full per-player entity (id,
//! position, and whether the player may act this tick).

use vstd::prelude::*;

use crate::actors::GridAxis;
use crate::actors::SpawnPosition;
use crate::actors::get_random_pos_on_axis;
use crate::actors::random_free_pos;
use crate::board::CanMove;
use crate::board::GridPosition;
use crate::board::SelectedBoard;
use crate::phases::GameSettings;

verus! {

/// A player token; ids run from 0 in turn order.
#[derive(Debug, Clone, Copy, PartialEq, Eq, Structural)]
pub struct Player {
    pub id: i32,
}

/// A player as it lives in the game: identity, grid position, and the
/// per-tick recomputed permission to move.
#[derive(Debug, Clone, Copy, PartialEq, Eq, Structural)]
pub struct PlayerBundle {
    pub player: Player,
    pub pos: GridPosition,
    pub can_move: CanMove,
}

/// A player token placed at `(x_pos, y_pos)`; the permission to move is
/// recomputed each tick, so it starts as `No`.
pub fn spawn_player(id: i32, x_pos: i32, y_pos: i32) -> (r: PlayerBundle)
    ensures
        r.player.id == id,
        r.pos == (GridPosition { x_pos, y_pos }),
        r.can_move is No,
{
    PlayerBundle {
        player: Player { id },
        pos: GridPosition { x_pos, y_pos },
        can_move: CanMove::No,
    }
}

/// Whether the first `k` players between them already stand on every
/// on-board cell — the only situation in which a randomly placed player
/// can land on an occupied cell.
pub open spec fn spec_players_cover_board(
    players: Seq<PlayerBundle>,
    k: int,
    cols: int,
    rows: int,
) -> bool {
    forall|p: GridPosition|
        #![trigger p.x_pos, p.y_pos]
        0 <= p.x_pos < cols && 0 <= p.y_pos < rows ==> exists|j: int|
            0 <= j < k && (#[trigger] players[j]).pos == p
}

proof fn lemma_players_cover_board_push(
    players: Seq<PlayerBundle>,
    extra: PlayerBundle,
    k: int,
    cols: int,
    rows: int,
)
    requires
        0 <= k <= players.len(),
        spec_players_cover_board(players, k, cols, rows),
    ensures
        spec_players_cover_board(players.push(extra), k, cols, rows),
{
    assert forall|p: GridPosition|
        #![trigger p.x_pos, p.y_pos]
        0 <= p.x_pos < cols && 0 <= p.y_pos < rows implies exists|j: int|
        0 <= j < k && (#[trigger] players.push(extra)[j]).pos == p by {
        let j0 = choose|j0: int| 0 <= j0 < k && (#[trigger] players[j0]).pos == p;
        assert(players.push(extra)[j0] == players[j0]);
    }
}

/// Spawn all players for a new game, ids `0` to `num_players - 1` in
/// turn order: each takes the board template's fixed spawn position of
/// its rank while one is given; the rest land on random on-board cells,
/// and such a cell is distinct from every earlier player's cell unless
/// the earlier players already cover the whole board.
pub fn spawn_all_players(
    settings: &GameSettings,
    selected_board: &SelectedBoard,
    rng: &mut rand::rngs::ThreadRng,
) -> (r: Vec<PlayerBundle>)
    requires
        settings.wf(),
        selected_board.board.wf(),
    ensures
        r@.len() == settings.num_players,
        forall|k: int|
            0 <= k < r@.len() ==> {
                let sp = selected_board.board.spawn_positions@;
                let cols = selected_board.board.cols as int;
                let rows = selected_board.board.rows as int;
                &&& (#[trigger] r@[k]).player.id == k
                &&& r@[k].can_move is No
                &&& (k < sp.len() ==> match sp[k] {
                    SpawnPosition::Position(p) => r@[k].pos == p,
                    SpawnPosition::Any => 0 <= r@[k].pos.x_pos < cols && 0 <= r@[k].pos.y_pos
                        < rows,
                })
                &&& (k >= sp.len() ==> 0 <= r@[k].pos.x_pos < cols && 0 <= r@[k].pos.y_pos < rows)
                &&& ((k >= sp.len() || sp[k] is Any) ==> ((forall|j: int|
                    0 <= j < k ==> (#[trigger] r@[j]).pos != r@[k].pos)
                    || spec_players_cover_board(r@, k, cols, rows)))
            },
{
    let num_spawn_pos = selected_board.board.spawn_positions.len();
    let avoid: Vec<GridPosition> = Vec::new();
    let mut used_pos: Vec<GridPosition> = Vec::new();
    let mut spawned: Vec<PlayerBundle> = Vec::new();

    let mut id: i32 = 0;
    while id < settings.num_players
        invariant
            settings.wf(),
            selected_board.board.wf(),
            num_spawn_pos == selected_board.board.spawn_positions@.len(),
            avoid@.len() == 0,
            0 <= id <= settings.num_players,
            spawned@.len() == id,
            used_pos@.len() == spawned@.len(),
            forall|j: int| 0 <= j < spawned@.len() ==> used_pos@[j] == (#[trigger] spawned@[j]).pos,
            forall|k: int|
                0 <= k < spawned@.len() ==> {
                    let sp = selected_board.board.spawn_positions@;
                    let cols = selected_board.board.cols as int;
                    let rows = selected_board.board.rows as int;
                    &&& (#[trigger] spawned@[k]).player.id == k
                    &&& spawned@[k].can_move is No
                    &&& (k < sp.len() ==> match sp[k] {
                        SpawnPosition::Position(p) => spawned@[k].pos == p,
                        SpawnPosition::Any => 0 <= spawned@[k].pos.x_pos < cols && 0
                            <= spawned@[k].pos.y_pos < rows,
                    })
                    &&& (k >= sp.len() ==> 0 <= spawned@[k].pos.x_pos < cols && 0
                        <= spawned@[k].pos.y_pos < rows)
                    &&& ((k >= sp.len() || sp[k] is Any) ==> ((forall|j: int|
                        0 <= j < k ==> (#[trigger] spawned@[j]).pos != spawned@[k].pos)
                        || spec_players_cover_board(spawned@, k, cols, rows)))
                },
        decreases settings.num_players - id,
    {
        let ghost pre = spawned@;
        let ghost cols = selected_board.board.cols as int;
        let ghost rows = selected_board.board.rows as int;
        let idx = id as usize;
        let fixed: Option<GridPosition> = if idx < num_spawn_pos {
            match selected_board.board.spawn_positions[idx] {
                SpawnPosition::Position(p) => Some(p),
                SpawnPosition::Any => None,
            }
        } else {
            None
        };
        let pos = match fixed {
            Some(p) => p,
            None => match random_free_pos(selected_board, &used_pos, &avoid, rng) {
                Some(p) => {
                    proof {
                        assert forall|j: int| 0 <= j < pre.len() implies (#[trigger] pre[j]).pos
                            != p by {
                            if pre[j].pos == p {
                                assert(used_pos@[j] == p);
                                assert(used_pos@.contains(p));
                            }
                        }
                    }
                    p
                },
                None => {
                    proof {
                        assert forall|p: GridPosition|
                            #![trigger p.x_pos, p.y_pos]
                            0 <= p.x_pos < cols && 0 <= p.y_pos < rows implies exists|j: int|
                            0 <= j < pre.len() && (#[trigger] pre[j]).pos == p by {
                            assert(used_pos@.contains(p) || avoid@.contains(p));
                            assert(used_pos@.contains(p));
                            let i = choose|i: int| 0 <= i < used_pos@.len() && used_pos@[i] == p;
                            assert(pre[i].pos == p);
                        }
                        assert(spec_players_cover_board(pre, pre.len() as int, cols, rows));
                    }
                    GridPosition {
                        x_pos: get_random_pos_on_axis(GridAxis::X, selected_board, rng),
                        y_pos: get_random_pos_on_axis(GridAxis::Y, selected_board, rng),
                    }
                },
            },
        };
        let b = spawn_player(id, pos.x_pos, pos.y_pos);
        spawned.push(b);
        used_pos.push(pos);
        proof {
            // earlier cover facts survive the push, since they speak only
            // of the untouched prefix
            assert forall|k: int|
                0 <= k <= pre.len() && spec_players_cover_board(
                    pre,
                    k,
                    cols,
                    rows,
                ) implies spec_players_cover_board(spawned@, k, cols, rows) by {
                lemma_players_cover_board_push(pre, b, k, cols, rows);
            }
        }
        id = id + 1;
    }
    spawned
}

} // verus!
