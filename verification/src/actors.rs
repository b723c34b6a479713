//! Spawn placement shared by players and treasures: a spawn position is
//! either fixed by the board template or left open, and open positions
//! are filled by uniform draws over the board's axes.

use vstd::prelude::*;

use crate::board::GridPosition;
use crate::board::SelectedBoard;
use crate::rng::gen_index_below;

verus! {

/// A spawn position from a board template: either a fixed cell or
/// "anywhere", resolved at spawn time by a random draw.
#[derive(Debug, Clone, Copy)]
pub enum SpawnPosition {
    Position(GridPosition),
    Any,
}

/// One of the two axes of the grid.
#[derive(Debug, Clone, Copy)]
pub enum GridAxis {
    X,
    Y,
}

/// The cells that a board template's fixed `Position` entries name, in
/// order; the `Any` entries contribute nothing.
pub open spec fn spec_fixed_spawns(sps: Seq<SpawnPosition>) -> Seq<GridPosition>
    decreases sps.len(),
{
    if sps.len() == 0 {
        Seq::empty()
    } else {
        let rest = spec_fixed_spawns(sps.drop_last());
        match sps.last() {
            SpawnPosition::Position(p) => rest.push(p),
            SpawnPosition::Any => rest,
        }
    }
}

/// A uniformly random on-board cell that is in neither `used` nor
/// `avoid`, or `None` when every cell of the board is taken. Drawing
/// among the free cells directly keeps spawn placement free of
/// unbounded retry loops while every free cell stays equally likely.
pub fn random_free_pos(
    selected_board: &SelectedBoard,
    used: &Vec<GridPosition>,
    avoid: &Vec<GridPosition>,
    rng: &mut rand::rngs::ThreadRng,
) -> (r: Option<GridPosition>)
    requires
        selected_board.board.wf(),
    ensures
        match r {
            Some(p) => {
                &&& 0 <= p.x_pos < selected_board.board.cols
                &&& 0 <= p.y_pos < selected_board.board.rows
                &&& !used@.contains(p)
                &&& !avoid@.contains(p)
            },
            None => forall|p: GridPosition|
                0 <= p.x_pos < selected_board.board.cols && 0 <= p.y_pos
                    < selected_board.board.rows ==> used@.contains(p) || avoid@.contains(p),
        },
{
    let cols = selected_board.board.cols;
    let rows = selected_board.board.rows;
    let mut free: Vec<GridPosition> = Vec::new();
    let mut x: usize = 0;
    while x < cols
        invariant
            selected_board.board.wf(),
            cols == selected_board.board.cols,
            rows == selected_board.board.rows,
            x <= cols,
            forall|i: int|
                0 <= i < free@.len() ==> {
                    let p = #[trigger] free@[i];
                    &&& 0 <= p.x_pos < cols
                    &&& 0 <= p.y_pos < rows
                    &&& !used@.contains(p)
                    &&& !avoid@.contains(p)
                },
            forall|p: GridPosition|
                0 <= p.x_pos < x && 0 <= p.y_pos < rows && !used@.contains(p) && !avoid@.contains(
                    p,
                ) ==> free@.contains(p),
        decreases cols - x,
    {
        let mut y: usize = 0;
        while y < rows
            invariant
                selected_board.board.wf(),
                cols == selected_board.board.cols,
                rows == selected_board.board.rows,
                x < cols,
                y <= rows,
                forall|i: int|
                    0 <= i < free@.len() ==> {
                        let p = #[trigger] free@[i];
                        &&& 0 <= p.x_pos < cols
                        &&& 0 <= p.y_pos < rows
                        &&& !used@.contains(p)
                        &&& !avoid@.contains(p)
                    },
                forall|p: GridPosition|
                    0 <= p.x_pos < x && 0 <= p.y_pos < rows && !used@.contains(p)
                        && !avoid@.contains(p) ==> free@.contains(p),
                forall|p: GridPosition|
                    p.x_pos == x && 0 <= p.y_pos < y && !used@.contains(p) && !avoid@.contains(p)
                        ==> free@.contains(p),
            decreases rows - y,
        {
            let p = GridPosition { x_pos: x as i32, y_pos: y as i32 };
            if !crate::push::contains_pos(used, p) && !crate::push::contains_pos(avoid, p) {
                let ghost free0 = free@;
                free.push(p);
                proof {
                    assert(free@[free0.len() as int] == p);
                    assert forall|q: GridPosition| free0.contains(q) implies free@.contains(q) by {
                        let i = choose|i: int| 0 <= i < free0.len() && free0[i] == q;
                        assert(free@[i] == q);
                    }
                }
            }
            y = y + 1;
        }
        x = x + 1;
    }
    if free.len() == 0 {
        proof {
            assert forall|p: GridPosition|
                0 <= p.x_pos < cols && 0 <= p.y_pos < rows implies used@.contains(p)
                || avoid@.contains(p) by {
                if !used@.contains(p) && !avoid@.contains(p) {
                    assert(free@.contains(p));
                }
            }
        }
        None
    } else {
        let k = gen_index_below(rng, free.len());
        Some(free[k])
    }
}

/// A random on-board coordinate along the given axis of the selected
/// board: some value in `[0, cols)` for `X`, in `[0, rows)` for `Y`.
pub fn get_random_pos_on_axis(
    axis: GridAxis,
    selected_board: &SelectedBoard,
    rng: &mut rand::rngs::ThreadRng,
) -> (r: i32)
    requires
        selected_board.board.wf(),
    ensures
        match axis {
            GridAxis::X => 0 <= r < selected_board.board.cols,
            GridAxis::Y => 0 <= r < selected_board.board.rows,
        },
{
    match axis {
        GridAxis::X => gen_index_below(rng, selected_board.board.cols) as i32,
        GridAxis::Y => gen_index_below(rng, selected_board.board.rows) as i32,
    }
}

} // verus!
