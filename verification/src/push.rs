//! The push engine: the external (spare) tile's orbit around the
//! board's border, the committed push that slides a whole row or
//! column one cell and evicts the far-edge tile, and the bookkeeping
//! of border slots where a push is forbidden.

use vstd::prelude::*;

use crate::board::GridPosition;
use crate::board::SelectedBoard;
use crate::movement::get_max_coords;
use crate::movement::pos_is_external;
use crate::movement::spec_is_external;
use crate::player::PlayerBundle;
use crate::tile::Direction;
use crate::tile::TileBundle;
use crate::treasure::TreasureBundle;

verus! {

/// Whether the external tile may take one orbit step in `dir` without
/// leaving the border ring: the relevant coordinate stays at least `-1`
/// and at most `max + 1`.
pub open spec fn spec_tile_move_ok(pos: GridPosition, dir: Direction, max_x: int, max_y: int) -> bool {
    match dir {
        Direction::Up => pos.y_pos < max_y + 1,
        Direction::Down => pos.y_pos > -1,
        Direction::Left => pos.x_pos > -1,
        Direction::Right => pos.x_pos < max_x + 1,
    }
}

pub fn tile_move_ok(grid_pos: &GridPosition, wanted_dir: Direction, max_x: i32, max_y: i32) -> (r: bool)
    requires
        max_x < i32::MAX,
        max_y < i32::MAX,
    ensures
        r == spec_tile_move_ok(*grid_pos, wanted_dir, max_x as int, max_y as int),
{
    match wanted_dir {
        Direction::Up => grid_pos.y_pos < max_y + 1,
        Direction::Down => grid_pos.y_pos > -1,
        Direction::Left => grid_pos.x_pos > -1,
        Direction::Right => grid_pos.x_pos < max_x + 1,
    }
}

/// The external tile's position after one orbit step in `dir`: along an
/// edge it advances one cell; at a corner it turns onto the
/// perpendicular edge; from the far end of a parallel edge it crosses
/// to the opposite border. A step that none of the cases covers leaves
/// the position unchanged.
pub open spec fn spec_orbit_step(pos: GridPosition, dir: Direction, max_x: int, max_y: int) -> (
    int,
    int,
) {
    let x = pos.x_pos as int;
    let y = pos.y_pos as int;
    match dir {
        Direction::Up => if y == -1 {
            (x, max_y + 1)
        } else if y < max_y {
            (x, y + 1)
        } else if y == max_y {
            if x == -1 {
                (x + 1, y + 1)
            } else if x == max_x + 1 {
                (x - 1, y + 1)
            } else {
                (x, y + 1)
            }
        } else {
            (x, y)
        },
        Direction::Down => if y == max_y + 1 {
            (x, -1)
        } else if y > 0 {
            (x, y - 1)
        } else if y == 0 {
            if x == -1 {
                (x + 1, y - 1)
            } else if x == max_x + 1 {
                (x - 1, y - 1)
            } else {
                (x, y - 1)
            }
        } else {
            (x, y)
        },
        Direction::Right => if x == -1 {
            (max_x + 1, y)
        } else if x < max_x {
            (x + 1, y)
        } else if x == max_x {
            if y == -1 {
                (x + 1, y + 1)
            } else if y == max_y + 1 {
                (x + 1, y - 1)
            } else {
                (x + 1, y)
            }
        } else {
            (x, y)
        },
        Direction::Left => if x == max_x + 1 {
            (-1, y)
        } else if x > 0 {
            (x - 1, y)
        } else if x == 0 {
            if y == -1 {
                (x - 1, y + 1)
            } else if y == max_y + 1 {
                (x - 1, y - 1)
            } else {
                (x - 1, y)
            }
        } else {
            (x, y)
        },
    }
}

/// The edge-triggered input sampled for the push phase of one tick.
#[derive(Debug, Clone, Copy, PartialEq, Eq, Structural)]
pub struct TileKeys {
    pub up: bool,
    pub down: bool,
    pub left: bool,
    pub right: bool,
    pub rotate: bool,
}

/// Where the external tile ends up for one tick of held direction keys:
/// the first direction in the order Up, Down, Right, Left that is both
/// pressed and a legal orbit step wins; with none, the tile stays put.
pub open spec fn spec_orbit_choice(pos: GridPosition, keys: TileKeys, max_x: int, max_y: int) -> (
    int,
    int,
) {
    if keys.up && spec_tile_move_ok(pos, Direction::Up, max_x, max_y) {
        spec_orbit_step(pos, Direction::Up, max_x, max_y)
    } else if keys.down && spec_tile_move_ok(pos, Direction::Down, max_x, max_y) {
        spec_orbit_step(pos, Direction::Down, max_x, max_y)
    } else if keys.right && spec_tile_move_ok(pos, Direction::Right, max_x, max_y) {
        spec_orbit_step(pos, Direction::Right, max_x, max_y)
    } else if keys.left && spec_tile_move_ok(pos, Direction::Left, max_x, max_y) {
        spec_orbit_step(pos, Direction::Left, max_x, max_y)
    } else {
        (pos.x_pos as int, pos.y_pos as int)
    }
}

/// One orbit step of a single position, mirrored across the four
/// direction cases.
fn orbit_step(pos: GridPosition, dir: Direction, max_x: i32, max_y: i32) -> (r: GridPosition)
    requires
        0 <= max_x <= i32::MAX - 2,
        0 <= max_y <= i32::MAX - 2,
    ensures
        r.x_pos == spec_orbit_step(pos, dir, max_x as int, max_y as int).0,
        r.y_pos == spec_orbit_step(pos, dir, max_x as int, max_y as int).1,
{
    let mut p = pos;
    match dir {
        Direction::Up => {
            if p.y_pos == -1 {
                p.y_pos = max_y + 1;
            } else if p.y_pos < max_y {
                p.y_pos = p.y_pos + 1;
            } else if p.y_pos == max_y {
                p.y_pos = p.y_pos + 1;
                if p.x_pos == -1 {
                    p.x_pos = p.x_pos + 1;
                }
                if p.x_pos == max_x + 1 {
                    p.x_pos = p.x_pos - 1;
                }
            }
        },
        Direction::Down => {
            if p.y_pos == max_y + 1 {
                p.y_pos = -1;
            } else if p.y_pos > 0 {
                p.y_pos = p.y_pos - 1;
            } else if p.y_pos == 0 {
                p.y_pos = p.y_pos - 1;
                if p.x_pos == -1 {
                    p.x_pos = p.x_pos + 1;
                }
                if p.x_pos == max_x + 1 {
                    p.x_pos = p.x_pos - 1;
                }
            }
        },
        Direction::Right => {
            if p.x_pos == -1 {
                p.x_pos = max_x + 1;
            } else if p.x_pos < max_x {
                p.x_pos = p.x_pos + 1;
            } else if p.x_pos == max_x {
                p.x_pos = p.x_pos + 1;
                if p.y_pos == -1 {
                    p.y_pos = p.y_pos + 1;
                }
                if p.y_pos == max_y + 1 {
                    p.y_pos = p.y_pos - 1;
                }
            }
        },
        Direction::Left => {
            if p.x_pos == max_x + 1 {
                p.x_pos = -1;
            } else if p.x_pos > 0 {
                p.x_pos = p.x_pos - 1;
            } else if p.x_pos == 0 {
                p.x_pos = p.x_pos - 1;
                if p.y_pos == -1 {
                    p.y_pos = p.y_pos + 1;
                }
                if p.y_pos == max_y + 1 {
                    p.y_pos = p.y_pos - 1;
                }
            }
        },
    }
    p
}

/// Move and rotate the external tile during the push phase. Every tile
/// sitting on the border ring (there is one at most in a well-formed
/// game) takes the orbit step chosen by the direction keys, and a
/// pressed rotate key turns its open sides a quarter turn clockwise.
/// Outside the push phase, or once the game has ended, nothing moves.
pub fn move_current_tile(
    tiles: &mut Vec<TileBundle>,
    game_state: &crate::phases::GamePhase,
    selected_board: &SelectedBoard,
    keys: TileKeys,
)
    requires
        selected_board.board.wf(),
    ensures
        final(tiles)@.len() == old(tiles)@.len(),
        forall|i: int|
            0 <= i < old(tiles)@.len() ==> {
                let t = old(tiles)@[i];
                let max_x = selected_board.board.cols - 1;
                let max_y = selected_board.board.rows - 1;
                let active = game_state.tile_push_phase && !game_state.has_ended
                    && spec_is_external(t.pos.x_pos as int, t.pos.y_pos as int, max_x, max_y);
                &&& (#[trigger] final(tiles)@[i]).tile_type == t.tile_type
                &&& final(tiles)@[i].can_move == t.can_move
                &&& (active ==> {
                    &&& final(tiles)@[i].pos.x_pos == spec_orbit_choice(t.pos, keys, max_x, max_y).0
                    &&& final(tiles)@[i].pos.y_pos == spec_orbit_choice(t.pos, keys, max_x, max_y).1
                    &&& final(tiles)@[i].open_ways == if keys.rotate {
                        crate::tile::spec_rotate_ways(t.open_ways, -90)
                    } else {
                        t.open_ways
                    }
                })
                &&& (!active ==> final(tiles)@[i] == t)
            },
{
    let (max_x, max_y) = get_max_coords(selected_board);
    if game_state.tile_push_phase && !game_state.has_ended {
        let mut i: usize = 0;
        while i < tiles.len()
            invariant
                selected_board.board.wf(),
                max_x == selected_board.board.cols - 1,
                max_y == selected_board.board.rows - 1,
                game_state.tile_push_phase && !game_state.has_ended,
                i <= tiles@.len(),
                tiles@.len() == old(tiles)@.len(),
                forall|j: int| i <= j < tiles@.len() ==> tiles@[j] == old(tiles)@[j],
                forall|j: int|
                    0 <= j < i ==> {
                        let t = old(tiles)@[j];
                        let active = spec_is_external(
                            t.pos.x_pos as int,
                            t.pos.y_pos as int,
                            max_x as int,
                            max_y as int,
                        );
                        &&& (#[trigger] tiles@[j]).tile_type == t.tile_type
                        &&& tiles@[j].can_move == t.can_move
                        &&& (active ==> {
                            &&& tiles@[j].pos.x_pos == spec_orbit_choice(
                                t.pos,
                                keys,
                                max_x as int,
                                max_y as int,
                            ).0
                            &&& tiles@[j].pos.y_pos == spec_orbit_choice(
                                t.pos,
                                keys,
                                max_x as int,
                                max_y as int,
                            ).1
                            &&& tiles@[j].open_ways == if keys.rotate {
                                crate::tile::spec_rotate_ways(t.open_ways, -90)
                            } else {
                                t.open_ways
                            }
                        })
                        &&& (!active ==> tiles@[j] == t)
                    },
            decreases tiles@.len() - i,
        {
            let mut t = tiles[i];
            if pos_is_external(&t.pos, max_x, max_y) {
                if keys.up && tile_move_ok(&t.pos, Direction::Up, max_x, max_y) {
                    t.pos = orbit_step(t.pos, Direction::Up, max_x, max_y);
                } else if keys.down && tile_move_ok(&t.pos, Direction::Down, max_x, max_y) {
                    t.pos = orbit_step(t.pos, Direction::Down, max_x, max_y);
                } else if keys.right && tile_move_ok(&t.pos, Direction::Right, max_x, max_y) {
                    t.pos = orbit_step(t.pos, Direction::Right, max_x, max_y);
                } else if keys.left && tile_move_ok(&t.pos, Direction::Left, max_x, max_y) {
                    t.pos = orbit_step(t.pos, Direction::Left, max_x, max_y);
                }
                if keys.rotate {
                    t.open_ways = crate::tile::rotate_ways(t.open_ways, -90);
                }
                tiles.set(i, t);
            }
            i = i + 1;
        }
    }
}

/// The x coordinate of a position after one push committed at the
/// border slot `(ex, ey)`: a push from the left or right border shifts
/// the whole matching row one cell inward.
pub open spec fn spec_pushed_x(x: int, y: int, ex: int, ey: int, max_x: int, max_y: int) -> int {
    if ex == -1 {
        if y == ey {
            x + 1
        } else {
            x
        }
    } else if ey == -1 {
        x
    } else if ex == max_x + 1 {
        if y == ey {
            x - 1
        } else {
            x
        }
    } else {
        x
    }
}

/// The y coordinate of a position after one push committed at the
/// border slot `(ex, ey)`: a push from the bottom or top border shifts
/// the whole matching column one cell inward.
pub open spec fn spec_pushed_y(x: int, y: int, ex: int, ey: int, max_x: int, max_y: int) -> int {
    if ex == -1 {
        y
    } else if ey == -1 {
        if x == ex {
            y + 1
        } else {
            y
        }
    } else if ex == max_x + 1 {
        y
    } else if ey == max_y + 1 {
        if x == ex {
            y - 1
        } else {
            y
        }
    } else {
        y
    }
}

/// Shift one entity position as a committed push at `external_pos`
/// does.
fn push_one(pos: &mut GridPosition, external_pos: GridPosition, max_x: i32, max_y: i32)
    requires
        0 <= max_x <= i32::MAX - 2,
        0 <= max_y <= i32::MAX - 2,
        -1 <= old(pos).x_pos <= max_x + 1,
        -1 <= old(pos).y_pos <= max_y + 1,
    ensures
        final(pos).x_pos == spec_pushed_x(
            old(pos).x_pos as int,
            old(pos).y_pos as int,
            external_pos.x_pos as int,
            external_pos.y_pos as int,
            max_x as int,
            max_y as int,
        ),
        final(pos).y_pos == spec_pushed_y(
            old(pos).x_pos as int,
            old(pos).y_pos as int,
            external_pos.x_pos as int,
            external_pos.y_pos as int,
            max_x as int,
            max_y as int,
        ),
{
    if external_pos.x_pos == -1 {
        if pos.y_pos == external_pos.y_pos {
            pos.x_pos = pos.x_pos + 1;
        }
    } else if external_pos.y_pos == -1 {
        if pos.x_pos == external_pos.x_pos {
            pos.y_pos = pos.y_pos + 1;
        }
    } else if external_pos.x_pos == max_x + 1 {
        if pos.y_pos == external_pos.y_pos {
            pos.x_pos = pos.x_pos - 1;
        }
    } else if external_pos.y_pos == max_y + 1 {
        if pos.x_pos == external_pos.x_pos {
            pos.y_pos = pos.y_pos - 1;
        }
    }
}

/// Whether every entity position in the game sits inside the border
/// ring: on the board or at most one step outside it.
pub open spec fn spec_positions_in_ring(
    tiles: Seq<TileBundle>,
    players: Seq<PlayerBundle>,
    treasures: Seq<TreasureBundle>,
    max_x: int,
    max_y: int,
) -> bool {
    &&& forall|i: int|
        0 <= i < tiles.len() ==> -1 <= (#[trigger] tiles[i]).pos.x_pos <= max_x + 1 && -1
            <= tiles[i].pos.y_pos <= max_y + 1
    &&& forall|i: int|
        0 <= i < players.len() ==> -1 <= (#[trigger] players[i]).pos.x_pos <= max_x + 1 && -1
            <= players[i].pos.y_pos <= max_y + 1
    &&& forall|i: int|
        0 <= i < treasures.len() ==> -1 <= (#[trigger] treasures[i]).pos.x_pos <= max_x + 1 && -1
            <= treasures[i].pos.y_pos <= max_y + 1
}

/// Slide the line addressed by the external slot one cell inward:
/// every entity (tile, player or treasure) whose row or column matches
/// the external position shifts with it, rigidly and regardless of
/// kind; every other entity, and every field besides the position,
/// stays as it was.
pub fn push_tile(
    tiles: &mut Vec<TileBundle>,
    players: &mut Vec<PlayerBundle>,
    treasures: &mut Vec<TreasureBundle>,
    external_pos: GridPosition,
    max_x: i32,
    max_y: i32,
)
    requires
        0 <= max_x <= i32::MAX - 2,
        0 <= max_y <= i32::MAX - 2,
        spec_positions_in_ring(
            old(tiles)@,
            old(players)@,
            old(treasures)@,
            max_x as int,
            max_y as int,
        ),
    ensures
        final(tiles)@.len() == old(tiles)@.len(),
        final(players)@.len() == old(players)@.len(),
        final(treasures)@.len() == old(treasures)@.len(),
        forall|i: int|
            0 <= i < old(tiles)@.len() ==> {
                let t = old(tiles)@[i];
                &&& (#[trigger] final(tiles)@[i]).pos.x_pos == spec_pushed_x(
                    t.pos.x_pos as int,
                    t.pos.y_pos as int,
                    external_pos.x_pos as int,
                    external_pos.y_pos as int,
                    max_x as int,
                    max_y as int,
                )
                &&& final(tiles)@[i].pos.y_pos == spec_pushed_y(
                    t.pos.x_pos as int,
                    t.pos.y_pos as int,
                    external_pos.x_pos as int,
                    external_pos.y_pos as int,
                    max_x as int,
                    max_y as int,
                )
                &&& final(tiles)@[i].tile_type == t.tile_type
                &&& final(tiles)@[i].can_move == t.can_move
                &&& final(tiles)@[i].open_ways == t.open_ways
            },
        forall|i: int|
            0 <= i < old(players)@.len() ==> {
                let p = old(players)@[i];
                &&& (#[trigger] final(players)@[i]).pos.x_pos == spec_pushed_x(
                    p.pos.x_pos as int,
                    p.pos.y_pos as int,
                    external_pos.x_pos as int,
                    external_pos.y_pos as int,
                    max_x as int,
                    max_y as int,
                )
                &&& final(players)@[i].pos.y_pos == spec_pushed_y(
                    p.pos.x_pos as int,
                    p.pos.y_pos as int,
                    external_pos.x_pos as int,
                    external_pos.y_pos as int,
                    max_x as int,
                    max_y as int,
                )
                &&& final(players)@[i].player == p.player
                &&& final(players)@[i].can_move == p.can_move
            },
        forall|i: int|
            0 <= i < old(treasures)@.len() ==> {
                let tr = old(treasures)@[i];
                &&& (#[trigger] final(treasures)@[i]).pos.x_pos == spec_pushed_x(
                    tr.pos.x_pos as int,
                    tr.pos.y_pos as int,
                    external_pos.x_pos as int,
                    external_pos.y_pos as int,
                    max_x as int,
                    max_y as int,
                )
                &&& final(treasures)@[i].pos.y_pos == spec_pushed_y(
                    tr.pos.x_pos as int,
                    tr.pos.y_pos as int,
                    external_pos.x_pos as int,
                    external_pos.y_pos as int,
                    max_x as int,
                    max_y as int,
                )
                &&& final(treasures)@[i].treasure == tr.treasure
            },
{
    let mut i: usize = 0;
    while i < tiles.len()
        invariant
            0 <= max_x <= i32::MAX - 2,
            0 <= max_y <= i32::MAX - 2,
            i <= tiles@.len(),
            tiles@.len() == old(tiles)@.len(),
            forall|j: int|
                i <= j < tiles@.len() ==> tiles@[j] == old(tiles)@[j] && -1 <= (#[trigger] tiles@[j]).pos.x_pos
                    <= max_x + 1 && -1 <= tiles@[j].pos.y_pos <= max_y + 1,
            forall|j: int|
                0 <= j < i ==> {
                    let t = old(tiles)@[j];
                    &&& (#[trigger] tiles@[j]).pos.x_pos == spec_pushed_x(
                        t.pos.x_pos as int,
                        t.pos.y_pos as int,
                        external_pos.x_pos as int,
                        external_pos.y_pos as int,
                        max_x as int,
                        max_y as int,
                    )
                    &&& tiles@[j].pos.y_pos == spec_pushed_y(
                        t.pos.x_pos as int,
                        t.pos.y_pos as int,
                        external_pos.x_pos as int,
                        external_pos.y_pos as int,
                        max_x as int,
                        max_y as int,
                    )
                    &&& tiles@[j].tile_type == t.tile_type
                    &&& tiles@[j].can_move == t.can_move
                    &&& tiles@[j].open_ways == t.open_ways
                },
        decreases tiles@.len() - i,
    {
        let mut t = tiles[i];
        push_one(&mut t.pos, external_pos, max_x, max_y);
        tiles.set(i, t);
        i = i + 1;
    }

    let mut i: usize = 0;
    while i < players.len()
        invariant
            0 <= max_x <= i32::MAX - 2,
            0 <= max_y <= i32::MAX - 2,
            i <= players@.len(),
            players@.len() == old(players)@.len(),
            forall|j: int|
                i <= j < players@.len() ==> players@[j] == old(players)@[j] && -1 <= (
                #[trigger] players@[j]).pos.x_pos <= max_x + 1 && -1 <= players@[j].pos.y_pos
                    <= max_y + 1,
            forall|j: int|
                0 <= j < i ==> {
                    let p = old(players)@[j];
                    &&& (#[trigger] players@[j]).pos.x_pos == spec_pushed_x(
                        p.pos.x_pos as int,
                        p.pos.y_pos as int,
                        external_pos.x_pos as int,
                        external_pos.y_pos as int,
                        max_x as int,
                        max_y as int,
                    )
                    &&& players@[j].pos.y_pos == spec_pushed_y(
                        p.pos.x_pos as int,
                        p.pos.y_pos as int,
                        external_pos.x_pos as int,
                        external_pos.y_pos as int,
                        max_x as int,
                        max_y as int,
                    )
                    &&& players@[j].player == p.player
                    &&& players@[j].can_move == p.can_move
                },
        decreases players@.len() - i,
    {
        let mut p = players[i];
        push_one(&mut p.pos, external_pos, max_x, max_y);
        players.set(i, p);
        i = i + 1;
    }

    let mut i: usize = 0;
    while i < treasures.len()
        invariant
            0 <= max_x <= i32::MAX - 2,
            0 <= max_y <= i32::MAX - 2,
            i <= treasures@.len(),
            treasures@.len() == old(treasures)@.len(),
            forall|j: int|
                i <= j < treasures@.len() ==> treasures@[j] == old(treasures)@[j] && -1 <= (
                #[trigger] treasures@[j]).pos.x_pos <= max_x + 1 && -1 <= treasures@[j].pos.y_pos
                    <= max_y + 1,
            forall|j: int|
                0 <= j < i ==> {
                    let tr = old(treasures)@[j];
                    &&& (#[trigger] treasures@[j]).pos.x_pos == spec_pushed_x(
                        tr.pos.x_pos as int,
                        tr.pos.y_pos as int,
                        external_pos.x_pos as int,
                        external_pos.y_pos as int,
                        max_x as int,
                        max_y as int,
                    )
                    &&& treasures@[j].pos.y_pos == spec_pushed_y(
                        tr.pos.x_pos as int,
                        tr.pos.y_pos as int,
                        external_pos.x_pos as int,
                        external_pos.y_pos as int,
                        max_x as int,
                        max_y as int,
                    )
                    &&& treasures@[j].treasure == tr.treasure
                },
        decreases treasures@.len() - i,
    {
        let mut tr = treasures[i];
        push_one(&mut tr.pos, external_pos, max_x, max_y);
        treasures.set(i, tr);
        i = i + 1;
    }
}

/// The x coordinate of the border slot diametrically opposite `(ex,
/// ey)`; a position on no border comes back unchanged.
pub open spec fn spec_opposite_x(ex: int, ey: int, max_x: int, max_y: int) -> int {
    if ex == -1 {
        max_x + 1
    } else if ey == -1 {
        ex
    } else if ex == max_x + 1 {
        -1
    } else {
        ex
    }
}

/// The y coordinate of the border slot diametrically opposite `(ex,
/// ey)`; a position on no border comes back unchanged.
pub open spec fn spec_opposite_y(ex: int, ey: int, max_x: int, max_y: int) -> int {
    if ex == -1 {
        ey
    } else if ey == -1 {
        max_y + 1
    } else if ex == max_x + 1 {
        ey
    } else if ey == max_y + 1 {
        -1
    } else {
        ey
    }
}

/// The border slot diametrically opposite `pos`: the slot from which a
/// push would exactly undo a push from `pos`.
pub fn get_opposite_pos(pos: &GridPosition, max_x: i32, max_y: i32) -> (r: GridPosition)
    requires
        0 <= max_x <= i32::MAX - 2,
        0 <= max_y <= i32::MAX - 2,
    ensures
        r.x_pos == spec_opposite_x(pos.x_pos as int, pos.y_pos as int, max_x as int, max_y as int),
        r.y_pos == spec_opposite_y(pos.x_pos as int, pos.y_pos as int, max_x as int, max_y as int),
{
    if pos.x_pos == -1 {
        GridPosition { x_pos: max_x + 1, y_pos: pos.y_pos }
    } else if pos.y_pos == -1 {
        GridPosition { x_pos: pos.x_pos, y_pos: max_y + 1 }
    } else if pos.x_pos == max_x + 1 {
        GridPosition { x_pos: -1, y_pos: pos.y_pos }
    } else if pos.y_pos == max_y + 1 {
        GridPosition { x_pos: pos.x_pos, y_pos: -1 }
    } else {
        *pos
    }
}

/// Whether `(ex, ey)` is a proper border slot: exactly one coordinate
/// one step outside the board, the other in range.
pub open spec fn spec_is_border_slot(ex: int, ey: int, max_x: int, max_y: int) -> bool {
    ||| (ex == -1 && 0 <= ey <= max_y)
    ||| (ex == max_x + 1 && 0 <= ey <= max_y)
    ||| (ey == -1 && 0 <= ex <= max_x)
    ||| (ey == max_y + 1 && 0 <= ex <= max_x)
}

/// A push simulated from a border slot and then repeated from the slot
/// opposite it restores every position exactly: after the first push
/// the evicted tile occupies the opposite slot, and pushing from there
/// shifts the same line back. (Open sides are untouched by a push, so
/// orientations round-trip trivially.)
pub proof fn lemma_push_round_trip(x: int, y: int, ex: int, ey: int, max_x: int, max_y: int)
    requires
        0 <= max_x,
        0 <= max_y,
        spec_is_border_slot(ex, ey, max_x, max_y),
    ensures
        ({
            let x1 = spec_pushed_x(x, y, ex, ey, max_x, max_y);
            let y1 = spec_pushed_y(x, y, ex, ey, max_x, max_y);
            let ox = spec_opposite_x(ex, ey, max_x, max_y);
            let oy = spec_opposite_y(ex, ey, max_x, max_y);
            &&& spec_pushed_x(x1, y1, ox, oy, max_x, max_y) == x
            &&& spec_pushed_y(x1, y1, ox, oy, max_x, max_y) == y
        }),
{
}

/// The border slots at which a push is currently forbidden: slots whose
/// line holds a fixed tile (computed once at game start), plus at most
/// one transient entry — the slot opposite the last committed push,
/// which `fresh_pos_on_top` marks as the last element of `positions`.
#[derive(Debug, Clone)]
pub struct IllegalPushPositions {
    pub fresh_pos_on_top: bool,
    pub positions: Vec<GridPosition>,
}

/// Whether `positions` holds `p`.
pub fn contains_pos(positions: &Vec<GridPosition>, p: GridPosition) -> (r: bool)
    ensures
        r == positions@.contains(p),
{
    let mut i: usize = 0;
    while i < positions.len()
        invariant
            i <= positions@.len(),
            forall|j: int| 0 <= j < i ==> positions@[j] != p,
        decreases positions@.len() - i,
    {
        if positions[i].x_pos == p.x_pos && positions[i].y_pos == p.y_pos {
            return true;
        }
        i = i + 1;
    }
    false
}

/// `s` with every occurrence of `target` removed, the order of the rest
/// kept.
pub open spec fn spec_remove_pos(s: Seq<GridPosition>, target: GridPosition) -> Seq<GridPosition>
    decreases s.len(),
{
    if s.len() == 0 {
        s
    } else {
        let rest = spec_remove_pos(s.drop_last(), target);
        if s.last() == target {
            rest
        } else {
            rest.push(s.last())
        }
    }
}

proof fn lemma_remove_pos_push(s: Seq<GridPosition>, x: GridPosition, target: GridPosition)
    ensures
        spec_remove_pos(s.push(x), target) == if x == target {
            spec_remove_pos(s, target)
        } else {
            spec_remove_pos(s, target).push(x)
        },
{
    assert(s.push(x).drop_last() =~= s);
    assert(s.push(x).last() == x);
}

/// Removing an element leaves a subsequence: everything still present
/// was present before.
pub proof fn lemma_remove_pos_subset(s: Seq<GridPosition>, target: GridPosition, x: GridPosition)
    requires
        spec_remove_pos(s, target).contains(x),
    ensures
        s.contains(x),
    decreases s.len(),
{
    if s.len() > 0 {
        let rest = spec_remove_pos(s.drop_last(), target);
        let r = spec_remove_pos(s, target);
        if s.last() != target && x == s.last() {
            assert(s[s.len() - 1] == x);
        } else {
            if s.last() == target {
                assert(rest.contains(x));
            } else {
                let k = choose|k: int| 0 <= k < r.len() && r[k] == x;
                assert(r == rest.push(s.last()));
                if k == r.len() - 1 {
                    assert(false);
                } else {
                    assert(rest[k] == x);
                    assert(rest.contains(x));
                }
            }
            lemma_remove_pos_subset(s.drop_last(), target, x);
            let k2 = choose|k2: int| 0 <= k2 < s.drop_last().len() && s.drop_last()[k2] == x;
            assert(s[k2] == x);
        }
    }
}

/// Remove every occurrence of `target` from `positions`, keeping the
/// order of the rest.
fn remove_pos(positions: &mut Vec<GridPosition>, target: GridPosition)
    ensures
        final(positions)@ == spec_remove_pos(old(positions)@, target),
{
    let mut kept: Vec<GridPosition> = Vec::new();
    let mut i: usize = 0;
    while i < positions.len()
        invariant
            i <= positions@.len(),
            positions@ == old(positions)@,
            kept@ == spec_remove_pos(positions@.take(i as int), target),
        decreases positions@.len() - i,
    {
        let p = positions[i];
        proof {
            assert(positions@.take(i + 1).drop_last() =~= positions@.take(i as int));
            assert(positions@.take(i + 1).last() == positions@[i as int]);
        }
        if !(p.x_pos == target.x_pos && p.y_pos == target.y_pos) {
            kept.push(p);
        }
        i = i + 1;
    }
    proof {
        assert(positions@.take(positions@.len() as int) =~= positions@);
    }
    *positions = kept;
}

/// The stored slots after a committed push at `ext`: the previous
/// transient entry (the list's last element, when one is marked fresh)
/// is dropped, the slot opposite `ext` is appended as the new fresh
/// entry, and any occurrence of `ext` itself is cleared out.
pub open spec fn spec_commit_positions(
    positions: Seq<GridPosition>,
    fresh: bool,
    ext: GridPosition,
    max_x: int,
    max_y: int,
) -> Seq<GridPosition> {
    let base = if fresh && positions.len() > 0 {
        positions.drop_last()
    } else {
        positions
    };
    let opp = GridPosition {
        x_pos: spec_opposite_x(ext.x_pos as int, ext.y_pos as int, max_x, max_y) as i32,
        y_pos: spec_opposite_y(ext.x_pos as int, ext.y_pos as int, max_x, max_y) as i32,
    };
    spec_remove_pos(base.push(opp), ext)
}

/// `positions` with `p` appended unless already present.
pub open spec fn spec_add_pos(positions: Seq<GridPosition>, p: GridPosition) -> Seq<GridPosition> {
    if positions.contains(p) {
        positions
    } else {
        positions.push(p)
    }
}

/// The slots a single fixed tile forbids: the four border slots whose
/// line crosses the tile's cell, each added without duplication. A
/// movable tile forbids nothing.
pub open spec fn spec_tile_blocked_slots(
    positions: Seq<GridPosition>,
    t: TileBundle,
    max_x: int,
    max_y: int,
) -> Seq<GridPosition> {
    if t.can_move is No {
        let left = GridPosition { x_pos: -1 as i32, y_pos: t.pos.y_pos };
        let bottom = GridPosition { x_pos: t.pos.x_pos, y_pos: -1 as i32 };
        let right = GridPosition { x_pos: (max_x + 1) as i32, y_pos: t.pos.y_pos };
        let top = GridPosition { x_pos: t.pos.x_pos, y_pos: (max_y + 1) as i32 };
        spec_add_pos(spec_add_pos(spec_add_pos(spec_add_pos(positions, left), bottom), right), top)
    } else {
        positions
    }
}

/// `positions` extended, tile by tile in order, with the slots each
/// fixed tile forbids.
pub open spec fn spec_illegal_from_fixed(
    positions: Seq<GridPosition>,
    tiles: Seq<TileBundle>,
    max_x: int,
    max_y: int,
) -> Seq<GridPosition>
    decreases tiles.len(),
{
    if tiles.len() == 0 {
        positions
    } else {
        spec_illegal_from_fixed(
            spec_tile_blocked_slots(positions, tiles[0], max_x, max_y),
            tiles.drop_first(),
            max_x,
            max_y,
        )
    }
}

proof fn lemma_illegal_from_fixed_step(
    positions: Seq<GridPosition>,
    tiles: Seq<TileBundle>,
    i: int,
    max_x: int,
    max_y: int,
)
    requires
        0 <= i < tiles.len(),
    ensures
        spec_illegal_from_fixed(
            spec_tile_blocked_slots(positions, tiles[i], max_x, max_y),
            tiles.skip(i + 1),
            max_x,
            max_y,
        ) == spec_illegal_from_fixed(positions, tiles.skip(i), max_x, max_y),
{
    assert(tiles.skip(i).drop_first() =~= tiles.skip(i + 1));
    assert(tiles.skip(i)[0] == tiles[i]);
}

/// Append `p` to `positions` unless already present.
fn add_pos(positions: &mut Vec<GridPosition>, p: GridPosition)
    ensures
        final(positions)@ == spec_add_pos(old(positions)@, p),
{
    if !contains_pos(positions, p) {
        positions.push(p);
    }
}

/// Record, for every fixed (immovable) tile, the four border slots from
/// which a push would have to displace it: a push there must be refused
/// up front, since fixed tiles never shift. Runs once when a game
/// enters play; the fresh-entry marker is untouched.
pub fn compute_illegal_pushes(
    tiles: &Vec<TileBundle>,
    illegal: &mut IllegalPushPositions,
    selected_board: &SelectedBoard,
)
    requires
        selected_board.board.wf(),
    ensures
        final(illegal).fresh_pos_on_top == old(illegal).fresh_pos_on_top,
        final(illegal).positions@ == spec_illegal_from_fixed(
            old(illegal).positions@,
            tiles@,
            selected_board.board.cols - 1,
            selected_board.board.rows - 1,
        ),
{
    let (max_x, max_y) = get_max_coords(selected_board);
    let ghost mx = max_x as int;
    let ghost my = max_y as int;
    proof {
        assert(tiles@.skip(0) =~= tiles@);
    }
    let mut i: usize = 0;
    while i < tiles.len()
        invariant
            0 <= max_x <= i32::MAX - 2,
            0 <= max_y <= i32::MAX - 2,
            mx == max_x as int,
            my == max_y as int,
            i <= tiles@.len(),
            illegal.fresh_pos_on_top == old(illegal).fresh_pos_on_top,
            spec_illegal_from_fixed(illegal.positions@, tiles@.skip(i as int), mx, my)
                == spec_illegal_from_fixed(old(illegal).positions@, tiles@, mx, my),
        decreases tiles@.len() - i,
    {
        let t = tiles[i];
        proof {
            lemma_illegal_from_fixed_step(illegal.positions@, tiles@, i as int, mx, my);
            assert(tiles@.skip(0) =~= tiles@);
        }
        if matches!(t.can_move, crate::board::CanMove::No) {
            let new_illegal_left = GridPosition { x_pos: -1, y_pos: t.pos.y_pos };
            let new_illegal_bottom = GridPosition { x_pos: t.pos.x_pos, y_pos: -1 };
            let new_illegal_right = GridPosition { x_pos: max_x + 1, y_pos: t.pos.y_pos };
            let new_illegal_top = GridPosition { x_pos: t.pos.x_pos, y_pos: max_y + 1 };
            add_pos(&mut illegal.positions, new_illegal_left);
            add_pos(&mut illegal.positions, new_illegal_bottom);
            add_pos(&mut illegal.positions, new_illegal_right);
            add_pos(&mut illegal.positions, new_illegal_top);
        }
        i = i + 1;
    }
    proof {
        assert(tiles@.skip(tiles@.len() as int) =~= Seq::<TileBundle>::empty());
    }
}

/// The position of the last tile in the sequence that sits off the
/// board, or the origin when none does: the slot a push would be
/// committed from.
pub open spec fn spec_external_entity_pos(tiles: Seq<TileBundle>, max_x: int, max_y: int) -> GridPosition
    decreases tiles.len(),
{
    if tiles.len() == 0 {
        GridPosition { x_pos: 0, y_pos: 0 }
    } else if spec_is_external(
        tiles.last().pos.x_pos as int,
        tiles.last().pos.y_pos as int,
        max_x,
        max_y,
    ) {
        tiles.last().pos
    } else {
        spec_external_entity_pos(tiles.drop_last(), max_x, max_y)
    }
}

/// Find the external tile's position; the origin when no tile is off
/// the board.
pub fn find_external_pos(tiles: &Vec<TileBundle>, max_x: i32, max_y: i32) -> (r: GridPosition)
    ensures
        r == spec_external_entity_pos(tiles@, max_x as int, max_y as int),
{
    let mut found = GridPosition { x_pos: 0, y_pos: 0 };
    let mut i: usize = 0;
    while i < tiles.len()
        invariant
            i <= tiles@.len(),
            found == spec_external_entity_pos(tiles@.take(i as int), max_x as int, max_y as int),
        decreases tiles@.len() - i,
    {
        proof {
            assert(tiles@.take(i + 1).drop_last() =~= tiles@.take(i as int));
            assert(tiles@.take(i + 1).last() == tiles@[i as int]);
        }
        let t = tiles[i];
        if pos_is_external(&t.pos, max_x, max_y) {
            found = t.pos;
        }
        i = i + 1;
    }
    proof {
        assert(tiles@.take(tiles@.len() as int) =~= tiles@);
    }
    found
}

/// A position one push away from a state in which every entity was on
/// the board or riding the external slot stays within the border ring.
proof fn lemma_push_keeps_ring(x: int, y: int, ex: int, ey: int, max_x: int, max_y: int)
    requires
        0 <= max_x,
        0 <= max_y,
        spec_is_border_slot(ex, ey, max_x, max_y),
        (0 <= x <= max_x && 0 <= y <= max_y) || (x == ex && y == ey),
    ensures
        -1 <= spec_pushed_x(x, y, ex, ey, max_x, max_y) <= max_x + 1,
        -1 <= spec_pushed_y(x, y, ex, ey, max_x, max_y) <= max_y + 1,
{
}

/// Whether every entity either stands on the board or rides the
/// external slot `ext` — the shape a game state has whenever a push can
/// be triggered.
pub open spec fn spec_entities_on_board_or_at(
    tiles: Seq<TileBundle>,
    players: Seq<PlayerBundle>,
    treasures: Seq<TreasureBundle>,
    ext: GridPosition,
    max_x: int,
    max_y: int,
) -> bool {
    &&& forall|i: int|
        0 <= i < tiles.len() ==> (0 <= (#[trigger] tiles[i]).pos.x_pos <= max_x && 0
            <= tiles[i].pos.y_pos <= max_y) || tiles[i].pos == ext
    &&& forall|i: int|
        0 <= i < players.len() ==> (0 <= (#[trigger] players[i]).pos.x_pos <= max_x && 0
            <= players[i].pos.y_pos <= max_y) || players[i].pos == ext
    &&& forall|i: int|
        0 <= i < treasures.len() ==> (0 <= (#[trigger] treasures[i]).pos.x_pos <= max_x && 0
            <= treasures[i].pos.y_pos <= max_y) || treasures[i].pos == ext
}

/// The edge-triggered and held input sampled for the push trigger of
/// one tick: the confirm key's press edge, and the simulate key's
/// level, press edge and release edge. A well-formed sample has the
/// simulate key down on its press edge and up on its release edge.
#[derive(Debug, Clone, Copy, PartialEq, Eq, Structural)]
pub struct PushKeys {
    pub return_just_pressed: bool,
    pub s_pressed: bool,
    pub s_just_pressed: bool,
    pub s_just_released: bool,
}

impl PushKeys {
    pub open spec fn wf(self) -> bool {
        &&& (self.s_just_pressed ==> self.s_pressed)
        &&& (self.s_just_released ==> !self.s_pressed)
    }
}

/// React to the push-phase trigger keys for one tick. When the push
/// phase is active, the game has not ended and the external slot is not
/// a forbidden one: a confirm press (without the simulate key held)
/// commits the push — the line shifts, the push phase ends for this
/// turn, and the slot opposite the one just used replaces the previous
/// transient entry among the forbidden slots; the simulate key's press
/// edge applies the same shift as a preview, and its release edge
/// applies the shift again, which (the external slot having crossed to
/// the opposite border) restores every position. Otherwise nothing
/// changes.
pub fn trigger_push(
    tiles: &mut Vec<TileBundle>,
    players: &mut Vec<PlayerBundle>,
    treasures: &mut Vec<TreasureBundle>,
    selected_board: &SelectedBoard,
    keys: PushKeys,
    game_state: &mut crate::phases::GamePhase,
    illegal: &mut IllegalPushPositions,
)
    requires
        selected_board.board.wf(),
        keys.wf(),
        ({
            let mx = selected_board.board.cols - 1;
            let my = selected_board.board.rows - 1;
            let ext = spec_external_entity_pos(old(tiles)@, mx, my);
            &&& spec_is_border_slot(ext.x_pos as int, ext.y_pos as int, mx, my)
            &&& spec_entities_on_board_or_at(
                old(tiles)@,
                old(players)@,
                old(treasures)@,
                ext,
                mx,
                my,
            )
        }),
    ensures
        final(tiles)@.len() == old(tiles)@.len(),
        final(players)@.len() == old(players)@.len(),
        final(treasures)@.len() == old(treasures)@.len(),
        ({
            let mx = selected_board.board.cols - 1;
            let my = selected_board.board.rows - 1;
            let ext = spec_external_entity_pos(old(tiles)@, mx, my);
            let ex = ext.x_pos as int;
            let ey = ext.y_pos as int;
            let guard = old(game_state).tile_push_phase && !old(illegal).positions@.contains(ext)
                && !old(game_state).has_ended;
            let do_commit = guard && keys.return_just_pressed && !keys.s_pressed;
            let do_sim = guard && keys.s_just_pressed;
            let do_rev = guard && keys.s_just_released;
            let k = (if do_commit {
                1int
            } else {
                0int
            }) + (if do_sim {
                1int
            } else {
                0int
            }) + (if do_rev {
                1int
            } else {
                0int
            });
            &&& forall|i: int|
                0 <= i < old(tiles)@.len() ==> {
                    let q = old(tiles)@[i];
                    let x1 = if k >= 1 {
                        spec_pushed_x(q.pos.x_pos as int, q.pos.y_pos as int, ex, ey, mx, my)
                    } else {
                        q.pos.x_pos as int
                    };
                    let y1 = if k >= 1 {
                        spec_pushed_y(q.pos.x_pos as int, q.pos.y_pos as int, ex, ey, mx, my)
                    } else {
                        q.pos.y_pos as int
                    };
                    &&& (#[trigger] final(tiles)@[i]).pos.x_pos == (if k >= 2 {
                        spec_pushed_x(x1, y1, ex, ey, mx, my)
                    } else {
                        x1
                    })
                    &&& final(tiles)@[i].pos.y_pos == (if k >= 2 {
                        spec_pushed_y(x1, y1, ex, ey, mx, my)
                    } else {
                        y1
                    })
                    &&& final(tiles)@[i].tile_type == q.tile_type
                    &&& final(tiles)@[i].can_move == q.can_move
                    &&& final(tiles)@[i].open_ways == q.open_ways
                }
            &&& forall|i: int|
                0 <= i < old(players)@.len() ==> {
                    let q = old(players)@[i];
                    let x1 = if k >= 1 {
                        spec_pushed_x(q.pos.x_pos as int, q.pos.y_pos as int, ex, ey, mx, my)
                    } else {
                        q.pos.x_pos as int
                    };
                    let y1 = if k >= 1 {
                        spec_pushed_y(q.pos.x_pos as int, q.pos.y_pos as int, ex, ey, mx, my)
                    } else {
                        q.pos.y_pos as int
                    };
                    &&& (#[trigger] final(players)@[i]).pos.x_pos == (if k >= 2 {
                        spec_pushed_x(x1, y1, ex, ey, mx, my)
                    } else {
                        x1
                    })
                    &&& final(players)@[i].pos.y_pos == (if k >= 2 {
                        spec_pushed_y(x1, y1, ex, ey, mx, my)
                    } else {
                        y1
                    })
                    &&& final(players)@[i].player == q.player
                    &&& final(players)@[i].can_move == q.can_move
                }
            &&& forall|i: int|
                0 <= i < old(treasures)@.len() ==> {
                    let q = old(treasures)@[i];
                    let x1 = if k >= 1 {
                        spec_pushed_x(q.pos.x_pos as int, q.pos.y_pos as int, ex, ey, mx, my)
                    } else {
                        q.pos.x_pos as int
                    };
                    let y1 = if k >= 1 {
                        spec_pushed_y(q.pos.x_pos as int, q.pos.y_pos as int, ex, ey, mx, my)
                    } else {
                        q.pos.y_pos as int
                    };
                    &&& (#[trigger] final(treasures)@[i]).pos.x_pos == (if k >= 2 {
                        spec_pushed_x(x1, y1, ex, ey, mx, my)
                    } else {
                        x1
                    })
                    &&& final(treasures)@[i].pos.y_pos == (if k >= 2 {
                        spec_pushed_y(x1, y1, ex, ey, mx, my)
                    } else {
                        y1
                    })
                    &&& final(treasures)@[i].treasure == q.treasure
                }
            &&& final(game_state).current_player_id == old(game_state).current_player_id
            &&& final(game_state).has_ended == old(game_state).has_ended
            &&& final(game_state).tile_push_phase == (old(game_state).tile_push_phase && !do_commit)
            &&& (do_commit ==> final(illegal).fresh_pos_on_top && final(illegal).positions@
                == spec_commit_positions(
                old(illegal).positions@,
                old(illegal).fresh_pos_on_top,
                ext,
                mx,
                my,
            ))
            &&& (!do_commit ==> final(illegal).fresh_pos_on_top == old(illegal).fresh_pos_on_top
                && final(illegal).positions@ == old(illegal).positions@)
        }),
{
    let (max_x, max_y) = get_max_coords(selected_board);
    let external_pos = find_external_pos(tiles, max_x, max_y);
    let ghost mx = max_x as int;
    let ghost my = max_y as int;
    let ghost ex = external_pos.x_pos as int;
    let ghost ey = external_pos.y_pos as int;
    let ghost t0 = tiles@;
    let ghost p0 = players@;
    let ghost r0 = treasures@;

    let guard = game_state.tile_push_phase && !contains_pos(&illegal.positions, external_pos)
        && !game_state.has_ended;
    let do_commit = guard && keys.return_just_pressed && !keys.s_pressed;
    let do_sim = guard && keys.s_just_pressed;
    let do_rev = guard && keys.s_just_released;

    if do_commit {
        proof {
            assert forall|i: int|
                0 <= i < tiles@.len() implies -1 <= (#[trigger] tiles@[i]).pos.x_pos <= max_x + 1
                && -1 <= tiles@[i].pos.y_pos <= max_y + 1 by {}
            assert forall|i: int|
                0 <= i < players@.len() implies -1 <= (#[trigger] players@[i]).pos.x_pos <= max_x
                + 1 && -1 <= players@[i].pos.y_pos <= max_y + 1 by {}
            assert forall|i: int|
                0 <= i < treasures@.len() implies -1 <= (#[trigger] treasures@[i]).pos.x_pos
                <= max_x + 1 && -1 <= treasures@[i].pos.y_pos <= my + 1 by {}
        }
        push_tile(tiles, players, treasures, external_pos, max_x, max_y);
        game_state.tile_push_phase = false;
        if illegal.fresh_pos_on_top {
            let _ = illegal.positions.pop();
        }
        let opp = get_opposite_pos(&external_pos, max_x, max_y);
        illegal.positions.push(opp);
        illegal.fresh_pos_on_top = true;
        remove_pos(&mut illegal.positions, external_pos);
    }
    if do_sim {
        proof {
            assert forall|i: int|
                0 <= i < tiles@.len() implies -1 <= (#[trigger] tiles@[i]).pos.x_pos <= max_x + 1
                && -1 <= tiles@[i].pos.y_pos <= max_y + 1 by {}
            assert forall|i: int|
                0 <= i < players@.len() implies -1 <= (#[trigger] players@[i]).pos.x_pos <= max_x
                + 1 && -1 <= players@[i].pos.y_pos <= max_y + 1 by {}
            assert forall|i: int|
                0 <= i < treasures@.len() implies -1 <= (#[trigger] treasures@[i]).pos.x_pos
                <= max_x + 1 && -1 <= treasures@[i].pos.y_pos <= my + 1 by {}
        }
        push_tile(tiles, players, treasures, external_pos, max_x, max_y);
    }
    if do_rev {
        proof {
            assert forall|i: int|
                0 <= i < tiles@.len() implies -1 <= (#[trigger] tiles@[i]).pos.x_pos <= max_x + 1
                && -1 <= tiles@[i].pos.y_pos <= max_y + 1 by {
                if do_commit {
                    lemma_push_keeps_ring(t0[i].pos.x_pos as int, t0[i].pos.y_pos as int, ex, ey, mx, my);
                }
            }
            assert forall|i: int|
                0 <= i < players@.len() implies -1 <= (#[trigger] players@[i]).pos.x_pos <= max_x
                + 1 && -1 <= players@[i].pos.y_pos <= max_y + 1 by {
                if do_commit {
                    lemma_push_keeps_ring(p0[i].pos.x_pos as int, p0[i].pos.y_pos as int, ex, ey, mx, my);
                }
            }
            assert forall|i: int|
                0 <= i < treasures@.len() implies -1 <= (#[trigger] treasures@[i]).pos.x_pos
                <= max_x + 1 && -1 <= treasures@[i].pos.y_pos <= my + 1 by {
                if do_commit {
                    lemma_push_keeps_ring(r0[i].pos.x_pos as int, r0[i].pos.y_pos as int, ex, ey, mx, my);
                }
            }
        }
        push_tile(tiles, players, treasures, external_pos, max_x, max_y);
    }
}

/// After any committed push the forbidden-slot list holds at most one
/// transient entry: its last element is the slot opposite the push just
/// made, and everything before it comes from the list as it stood
/// before the previous transient entry was added.
pub proof fn lemma_commit_single_fresh(
    positions: Seq<GridPosition>,
    fresh: bool,
    ext: GridPosition,
    max_x: int,
    max_y: int,
)
    requires
        0 <= max_x <= 0x7ffffffd,
        0 <= max_y <= 0x7ffffffd,
        spec_is_border_slot(ext.x_pos as int, ext.y_pos as int, max_x, max_y),
    ensures
        ({
            let base = if fresh && positions.len() > 0 {
                positions.drop_last()
            } else {
                positions
            };
            let opp = GridPosition {
                x_pos: spec_opposite_x(ext.x_pos as int, ext.y_pos as int, max_x, max_y) as i32,
                y_pos: spec_opposite_y(ext.x_pos as int, ext.y_pos as int, max_x, max_y) as i32,
            };
            let r = spec_commit_positions(positions, fresh, ext, max_x, max_y);
            &&& r.len() > 0
            &&& r.last() == opp
            &&& r.drop_last() == spec_remove_pos(base, ext)
        }),
{
    let base = if fresh && positions.len() > 0 {
        positions.drop_last()
    } else {
        positions
    };
    let opp = GridPosition {
        x_pos: spec_opposite_x(ext.x_pos as int, ext.y_pos as int, max_x, max_y) as i32,
        y_pos: spec_opposite_y(ext.x_pos as int, ext.y_pos as int, max_x, max_y) as i32,
    };
    assert(opp != ext);
    lemma_remove_pos_push(base, opp, ext);
    assert(spec_commit_positions(positions, fresh, ext, max_x, max_y).drop_last()
        =~= spec_remove_pos(base, ext));
}

/// A committed push records exactly one transient forbidden slot, and
/// the next committed push clears it again: after a push at `e1` and
/// then one at a different slot `e2`, the slot opposite `e1` is no
/// longer forbidden unless it was among the slots derived from fixed
/// tiles all along.
pub proof fn lemma_one_fresh_entry(
    positions0: Seq<GridPosition>,
    fresh0: bool,
    e1: GridPosition,
    e2: GridPosition,
    max_x: int,
    max_y: int,
)
    requires
        0 <= max_x <= 0x7ffffffd,
        0 <= max_y <= 0x7ffffffd,
        spec_is_border_slot(e1.x_pos as int, e1.y_pos as int, max_x, max_y),
        spec_is_border_slot(e2.x_pos as int, e2.y_pos as int, max_x, max_y),
        e1 != e2,
        ({
            let base0 = if fresh0 && positions0.len() > 0 {
                positions0.drop_last()
            } else {
                positions0
            };
            let opp1 = GridPosition {
                x_pos: spec_opposite_x(e1.x_pos as int, e1.y_pos as int, max_x, max_y) as i32,
                y_pos: spec_opposite_y(e1.x_pos as int, e1.y_pos as int, max_x, max_y) as i32,
            };
            !base0.contains(opp1)
        }),
    ensures
        ({
            let opp1 = GridPosition {
                x_pos: spec_opposite_x(e1.x_pos as int, e1.y_pos as int, max_x, max_y) as i32,
                y_pos: spec_opposite_y(e1.x_pos as int, e1.y_pos as int, max_x, max_y) as i32,
            };
            !spec_commit_positions(
                spec_commit_positions(positions0, fresh0, e1, max_x, max_y),
                true,
                e2,
                max_x,
                max_y,
            ).contains(opp1)
        }),
{
    let base0 = if fresh0 && positions0.len() > 0 {
        positions0.drop_last()
    } else {
        positions0
    };
    let opp1 = GridPosition {
        x_pos: spec_opposite_x(e1.x_pos as int, e1.y_pos as int, max_x, max_y) as i32,
        y_pos: spec_opposite_y(e1.x_pos as int, e1.y_pos as int, max_x, max_y) as i32,
    };
    let opp2 = GridPosition {
        x_pos: spec_opposite_x(e2.x_pos as int, e2.y_pos as int, max_x, max_y) as i32,
        y_pos: spec_opposite_y(e2.x_pos as int, e2.y_pos as int, max_x, max_y) as i32,
    };
    lemma_opposite_pos_involution(e1.x_pos as int, e1.y_pos as int, max_x, max_y);
    lemma_opposite_pos_involution(e2.x_pos as int, e2.y_pos as int, max_x, max_y);
    assert(opp1 != e1);
    assert(opp2 != e2);
    assert(opp1 != opp2);

    let pos1 = spec_commit_positions(positions0, fresh0, e1, max_x, max_y);
    lemma_remove_pos_push(base0, opp1, e1);
    assert(pos1 == spec_remove_pos(base0, e1).push(opp1));
    assert(pos1.len() > 0 && pos1.last() == opp1);
    assert(pos1.drop_last() =~= spec_remove_pos(base0, e1));

    let base1 = spec_remove_pos(base0, e1);
    let pos2 = spec_commit_positions(pos1, true, e2, max_x, max_y);
    lemma_remove_pos_push(base1, opp2, e2);
    assert(pos2 == spec_remove_pos(base1, e2).push(opp2));

    if pos2.contains(opp1) {
        let k = choose|k: int| 0 <= k < pos2.len() && pos2[k] == opp1;
        if k == pos2.len() - 1 {
            assert(pos2[k] == opp2);
            assert(false);
        } else {
            assert(spec_remove_pos(base1, e2)[k] == opp1);
            assert(spec_remove_pos(base1, e2).contains(opp1));
            lemma_remove_pos_subset(base1, e2, opp1);
            lemma_remove_pos_subset(base0, e1, opp1);
            assert(false);
        }
    }
}

/// The opposite of the opposite of a border slot is the slot itself,
/// and opposite slots of distinct border slots are distinct.
pub proof fn lemma_opposite_pos_involution(ex: int, ey: int, max_x: int, max_y: int)
    requires
        0 <= max_x,
        0 <= max_y,
        spec_is_border_slot(ex, ey, max_x, max_y),
    ensures
        spec_is_border_slot(
            spec_opposite_x(ex, ey, max_x, max_y),
            spec_opposite_y(ex, ey, max_x, max_y),
            max_x,
            max_y,
        ),
        spec_opposite_x(
            spec_opposite_x(ex, ey, max_x, max_y),
            spec_opposite_y(ex, ey, max_x, max_y),
            max_x,
            max_y,
        ) == ex,
        spec_opposite_y(
            spec_opposite_x(ex, ey, max_x, max_y),
            spec_opposite_y(ex, ey, max_x, max_y),
            max_x,
            max_y,
        ) == ey,
{
}

} // verus!
