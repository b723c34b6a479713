//! Movement legality: where the board ends, which cell a step reaches,
//! and when a player may cross a tile boundary. A step is legal exactly
//! when it stays on the board, the tile under the player opens toward
//! the step, and the destination tile opens back toward the player.

use vstd::prelude::*;

use crate::board::CanMove;
use crate::board::GridPosition;
use crate::board::SelectedBoard;
use crate::phases::GamePhase;
use crate::player::PlayerBundle;
use crate::tile::Direction;
use crate::tile::OpenWays;
use crate::tile::TileBundle;
use vstd::pervasive::VecAdditionalExecFns;

verus! {

/// No opening on any side: what a query of an empty cell reads.
pub open spec fn spec_no_ways() -> OpenWays {
    OpenWays { top: false, right: false, bottom: false, left: false }
}

/// Whether integer coordinates `(x, y)` lie outside the on-board range
/// `[0, max_x] x [0, max_y]`.
pub open spec fn spec_is_external(x: int, y: int, max_x: int, max_y: int) -> bool {
    x == -1 || y == -1 || x > max_x || y > max_y
}

/// Whether a position is off the board (on the border orbit, or
/// further out).
pub fn pos_is_external(pos: &GridPosition, max_x: i32, max_y: i32) -> (r: bool)
    ensures
        r == spec_is_external(pos.x_pos as int, pos.y_pos as int, max_x as int, max_y as int),
{
    pos.x_pos == -1 || pos.y_pos == -1 || pos.x_pos > max_x || pos.y_pos > max_y
}

/// The largest on-board coordinate along each axis of the selected
/// board: `(cols - 1, rows - 1)`.
pub fn get_max_coords(selected_board: &SelectedBoard) -> (r: (i32, i32))
    requires
        selected_board.board.wf(),
    ensures
        r.0 == selected_board.board.cols - 1,
        r.1 == selected_board.board.rows - 1,
{
    let max_x: i32 = (selected_board.board.cols - 1) as i32;
    let max_y: i32 = (selected_board.board.rows - 1) as i32;
    (max_x, max_y)
}

/// The x coordinate one step from `pos` in direction `dir`.
pub open spec fn spec_dest_x(pos: GridPosition, dir: Direction) -> int {
    match dir {
        Direction::Up => pos.x_pos as int,
        Direction::Down => pos.x_pos as int,
        Direction::Left => pos.x_pos - 1,
        Direction::Right => pos.x_pos + 1,
    }
}

/// The y coordinate one step from `pos` in direction `dir`.
pub open spec fn spec_dest_y(pos: GridPosition, dir: Direction) -> int {
    match dir {
        Direction::Up => pos.y_pos + 1,
        Direction::Down => pos.y_pos - 1,
        Direction::Left => pos.y_pos as int,
        Direction::Right => pos.y_pos as int,
    }
}

/// The open sides of the tile at `(x, y)`: of the last tile in the
/// sequence at that cell, or no openings at all where no tile sits
/// (an absent tile is never a lookup error).
pub open spec fn spec_ways_at(tiles: Seq<TileBundle>, x: int, y: int) -> OpenWays
    decreases tiles.len(),
{
    if tiles.len() == 0 {
        spec_no_ways()
    } else if tiles.last().pos.x_pos == x && tiles.last().pos.y_pos == y {
        tiles.last().open_ways
    } else {
        spec_ways_at(tiles.drop_last(), x, y)
    }
}

/// Whether a player standing at `pos` may step in direction `dir`:
/// the destination is on the board, the tile under the player opens
/// toward `dir`, and the destination tile opens toward the opposite
/// direction.
pub open spec fn spec_can_step(
    tiles: Seq<TileBundle>,
    pos: GridPosition,
    dir: Direction,
    max_x: int,
    max_y: int,
) -> bool {
    let dx = spec_dest_x(pos, dir);
    let dy = spec_dest_y(pos, dir);
    &&& !spec_is_external(dx, dy, max_x, max_y)
    &&& spec_ways_at(tiles, pos.x_pos as int, pos.y_pos as int).spec_open_toward(dir)
    &&& spec_ways_at(tiles, dx, dy).spec_open_toward(dir.spec_opposite())
}

proof fn lemma_ways_at_take_step(tiles: Seq<TileBundle>, i: int, x: int, y: int)
    requires
        0 <= i < tiles.len(),
    ensures
        spec_ways_at(tiles.take(i + 1), x, y) == if tiles[i].pos.x_pos == x
            && tiles[i].pos.y_pos == y {
            tiles[i].open_ways
        } else {
            spec_ways_at(tiles.take(i), x, y)
        },
{
    assert(tiles.take(i + 1).drop_last() =~= tiles.take(i));
    assert(tiles.take(i + 1).last() == tiles[i]);
}

/// The open sides of the last tile of `tiles` sitting at `pos`, or no
/// openings where none does.
pub fn ways_at(tiles: &Vec<TileBundle>, pos: GridPosition) -> (r: OpenWays)
    ensures
        r == spec_ways_at(tiles@, pos.x_pos as int, pos.y_pos as int),
{
    let mut found = OpenWays { top: false, right: false, bottom: false, left: false };
    let mut i: usize = 0;
    while i < tiles.len()
        invariant
            i <= tiles@.len(),
            found == spec_ways_at(tiles@.take(i as int), pos.x_pos as int, pos.y_pos as int),
        decreases tiles@.len() - i,
    {
        let t = tiles[i];
        proof {
            lemma_ways_at_take_step(tiles@, i as int, pos.x_pos as int, pos.y_pos as int);
        }
        if t.pos.x_pos == pos.x_pos && t.pos.y_pos == pos.y_pos {
            found = t.open_ways;
        }
        i = i + 1;
    }
    proof {
        assert(tiles@.take(tiles@.len() as int) =~= tiles@);
    }
    found
}

/// Whether the move from `prev_pos` in direction `wanted_dir` is legal:
/// no stepping onto the external slot, and both tiles open toward each
/// other across the shared boundary.
pub fn player_move_ok(
    prev_pos: GridPosition,
    wanted_dir: Direction,
    tiles: &Vec<TileBundle>,
    selected_board: &SelectedBoard,
) -> (r: bool)
    requires
        selected_board.board.wf(),
        i32::MIN < prev_pos.x_pos < i32::MAX,
        i32::MIN < prev_pos.y_pos < i32::MAX,
    ensures
        r == spec_can_step(
            tiles@,
            prev_pos,
            wanted_dir,
            selected_board.board.cols - 1,
            selected_board.board.rows - 1,
        ),
{
    let (max_x, max_y) = get_max_coords(selected_board);

    let destination = match wanted_dir {
        Direction::Up => GridPosition { x_pos: prev_pos.x_pos, y_pos: prev_pos.y_pos + 1 },
        Direction::Down => GridPosition { x_pos: prev_pos.x_pos, y_pos: prev_pos.y_pos - 1 },
        Direction::Right => GridPosition { x_pos: prev_pos.x_pos + 1, y_pos: prev_pos.y_pos },
        Direction::Left => GridPosition { x_pos: prev_pos.x_pos - 1, y_pos: prev_pos.y_pos },
    };

    if pos_is_external(&destination, max_x, max_y) {
        return false;
    }

    let current_ways = ways_at(tiles, prev_pos);
    let dest_ways = ways_at(tiles, destination);
    current_ways.open_toward(wanted_dir) && dest_ways.open_toward(wanted_dir.opposite())
}

/// The edge-triggered directional input sampled for the move phase of
/// one tick.
#[derive(Debug, Clone, Copy, PartialEq, Eq, Structural)]
pub struct PlayerKeys {
    pub up: bool,
    pub down: bool,
    pub left: bool,
    pub right: bool,
}

/// Where a player eligible to move ends up for one tick of input: the
/// first direction in the priority order Right, Left, Up, Down that is
/// both pressed and a legal step wins, and exactly one coordinate
/// changes by one; with no pressed legal direction the player stays
/// put.
pub open spec fn spec_player_move_choice(
    tiles: Seq<TileBundle>,
    pos: GridPosition,
    keys: PlayerKeys,
    max_x: int,
    max_y: int,
) -> (int, int) {
    if keys.right && spec_can_step(tiles, pos, Direction::Right, max_x, max_y) {
        (pos.x_pos + 1, pos.y_pos as int)
    } else if keys.left && spec_can_step(tiles, pos, Direction::Left, max_x, max_y) {
        (pos.x_pos - 1, pos.y_pos as int)
    } else if keys.up && spec_can_step(tiles, pos, Direction::Up, max_x, max_y) {
        (pos.x_pos as int, pos.y_pos + 1)
    } else if keys.down && spec_can_step(tiles, pos, Direction::Down, max_x, max_y) {
        (pos.x_pos as int, pos.y_pos - 1)
    } else {
        (pos.x_pos as int, pos.y_pos as int)
    }
}

/// Move the current player for one tick of directional input. Only the
/// player whose turn it is may move, only outside the push phase, only
/// with the per-tick movement permission, and only while the game has
/// not ended; at most one step is taken however many keys are held,
/// and an illegal step simply leaves the player in place.
pub fn move_current_player(
    players: &mut Vec<PlayerBundle>,
    tiles: &Vec<TileBundle>,
    game_state: &GamePhase,
    keys: PlayerKeys,
    selected_board: &SelectedBoard,
)
    requires
        selected_board.board.wf(),
        forall|i: int|
            0 <= i < old(players)@.len() ==> i32::MIN < (#[trigger] old(players)@[i]).pos.x_pos
                < i32::MAX && i32::MIN < old(players)@[i].pos.y_pos < i32::MAX,
    ensures
        final(players)@.len() == old(players)@.len(),
        forall|i: int|
            0 <= i < old(players)@.len() ==> {
                let p = old(players)@[i];
                let max_x = selected_board.board.cols - 1;
                let max_y = selected_board.board.rows - 1;
                let eligible = !game_state.has_ended && p.player.id
                    == game_state.current_player_id && !game_state.tile_push_phase
                    && p.can_move is Yes;
                &&& (#[trigger] final(players)@[i]).player == p.player
                &&& final(players)@[i].can_move == p.can_move
                &&& (eligible ==> final(players)@[i].pos.x_pos == spec_player_move_choice(
                    tiles@,
                    p.pos,
                    keys,
                    max_x,
                    max_y,
                ).0 && final(players)@[i].pos.y_pos == spec_player_move_choice(
                    tiles@,
                    p.pos,
                    keys,
                    max_x,
                    max_y,
                ).1)
                &&& (!eligible ==> final(players)@[i] == p)
            },
{
    if !game_state.has_ended {
        let mut i: usize = 0;
        while i < players.len()
            invariant
                selected_board.board.wf(),
                !game_state.has_ended,
                i <= players@.len(),
                players@.len() == old(players)@.len(),
                forall|j: int|
                    i <= j < players@.len() ==> players@[j] == old(players)@[j] && i32::MIN < (
                    #[trigger] players@[j]).pos.x_pos < i32::MAX && i32::MIN
                        < players@[j].pos.y_pos < i32::MAX,
                forall|j: int|
                    0 <= j < i ==> {
                        let p = old(players)@[j];
                        let max_x = selected_board.board.cols - 1;
                        let max_y = selected_board.board.rows - 1;
                        let eligible = p.player.id == game_state.current_player_id
                            && !game_state.tile_push_phase && p.can_move is Yes;
                        &&& (#[trigger] players@[j]).player == p.player
                        &&& players@[j].can_move == p.can_move
                        &&& (eligible ==> players@[j].pos.x_pos == spec_player_move_choice(
                            tiles@,
                            p.pos,
                            keys,
                            max_x,
                            max_y,
                        ).0 && players@[j].pos.y_pos == spec_player_move_choice(
                            tiles@,
                            p.pos,
                            keys,
                            max_x,
                            max_y,
                        ).1)
                        &&& (!eligible ==> players@[j] == p)
                    },
            decreases players@.len() - i,
        {
            let mut p = players[i];
            if p.player.id == game_state.current_player_id && !game_state.tile_push_phase
                && matches!(p.can_move, CanMove::Yes) {
                if keys.right && player_move_ok(p.pos, Direction::Right, tiles, selected_board) {
                    p.pos.x_pos = p.pos.x_pos + 1;
                } else if keys.left && player_move_ok(p.pos, Direction::Left, tiles, selected_board) {
                    p.pos.x_pos = p.pos.x_pos - 1;
                } else if keys.up && player_move_ok(p.pos, Direction::Up, tiles, selected_board) {
                    p.pos.y_pos = p.pos.y_pos + 1;
                } else if keys.down && player_move_ok(p.pos, Direction::Down, tiles, selected_board) {
                    p.pos.y_pos = p.pos.y_pos - 1;
                }
                players.set(i, p);
            }
            i = i + 1;
        }
    }
}

/// The position a player found off the board is warped back to: the
/// toroidal wrap onto the opposite board edge, applied to whichever
/// border test matches first.
pub open spec fn spec_warp(pos: GridPosition, max_x: int, max_y: int) -> (int, int) {
    if pos.x_pos == -1 {
        (max_x, pos.y_pos as int)
    } else if pos.y_pos == -1 {
        (pos.x_pos as int, max_y)
    } else if pos.x_pos == max_x + 1 {
        (0, pos.y_pos as int)
    } else if pos.y_pos == max_y + 1 {
        (pos.x_pos as int, 0)
    } else {
        (pos.x_pos as int, pos.y_pos as int)
    }
}

/// Warp every player resting on the external slot back onto the board:
/// a position one step past an edge re-enters on the opposite edge.
/// Runs once per tick, after a push has settled, so no player is left
/// off the board.
pub fn warp_player(players: &mut Vec<PlayerBundle>, selected_board: &SelectedBoard)
    requires
        selected_board.board.wf(),
    ensures
        final(players)@.len() == old(players)@.len(),
        forall|i: int|
            0 <= i < old(players)@.len() ==> {
                let p = old(players)@[i];
                let max_x = selected_board.board.cols - 1;
                let max_y = selected_board.board.rows - 1;
                &&& (#[trigger] final(players)@[i]).player == p.player
                &&& final(players)@[i].can_move == p.can_move
                &&& final(players)@[i].pos.x_pos == spec_warp(p.pos, max_x, max_y).0
                &&& final(players)@[i].pos.y_pos == spec_warp(p.pos, max_x, max_y).1
            },
{
    let (max_x, max_y) = get_max_coords(selected_board);
    let mut i: usize = 0;
    while i < players.len()
        invariant
            i <= players@.len(),
            players@.len() == old(players)@.len(),
            0 <= max_x < i32::MAX,
            0 <= max_y < i32::MAX,
            forall|j: int| i <= j < players@.len() ==> players@[j] == old(players)@[j],
            forall|j: int|
                0 <= j < i ==> {
                    let p = old(players)@[j];
                    &&& (#[trigger] players@[j]).player == p.player
                    &&& players@[j].can_move == p.can_move
                    &&& players@[j].pos.x_pos == spec_warp(p.pos, max_x as int, max_y as int).0
                    &&& players@[j].pos.y_pos == spec_warp(p.pos, max_x as int, max_y as int).1
                },
        decreases players@.len() - i,
    {
        let mut p = players[i];
        if p.pos.x_pos == -1 {
            p.pos.x_pos = max_x;
        } else if p.pos.y_pos == -1 {
            p.pos.y_pos = max_y;
        } else if p.pos.x_pos == max_x + 1 {
            p.pos.x_pos = 0;
        } else if p.pos.y_pos == max_y + 1 {
            p.pos.y_pos = 0;
        }
        players.set(i, p);
        i = i + 1;
    }
}

/// An open connection reads the same from both of its ends: whenever
/// `pos` and the cell one step in direction `dir` are both on the
/// board, stepping there is legal exactly when stepping back from the
/// destination in the opposite direction is. (With the destination off
/// the board the two differ: the forward step is always illegal, while
/// a tile on the border may still open toward the board.)
pub proof fn lemma_can_step_symmetric(
    tiles: Seq<TileBundle>,
    pos: GridPosition,
    dir: Direction,
    dest: GridPosition,
    max_x: int,
    max_y: int,
)
    requires
        !spec_is_external(pos.x_pos as int, pos.y_pos as int, max_x, max_y),
        !spec_is_external(dest.x_pos as int, dest.y_pos as int, max_x, max_y),
        dest.x_pos == spec_dest_x(pos, dir),
        dest.y_pos == spec_dest_y(pos, dir),
    ensures
        spec_can_step(tiles, pos, dir, max_x, max_y) == spec_can_step(
            tiles,
            dest,
            dir.spec_opposite(),
            max_x,
            max_y,
        ),
{
}

} // verus!
