//! Tile catalog: the shapes a tile can take, the set of directions a
//! tile is open toward, and the rotation of that set by a quarter-turn
//! angle given in degrees.

use vstd::prelude::*;

use crate::board::CanMove;
use crate::board::GridPosition;
use crate::rng::gen_index_below;

verus! {

/// The four directions a player can attempt to move in, and the four
/// sides of a tile.
#[derive(Debug, Clone, Copy, PartialEq, Eq, Structural)]
pub enum Direction {
    Up,
    Down,
    Left,
    Right,
}

/// The shape of a tile, which fixes its unrotated open sides. `Any` is
/// a placeholder in board templates that resolves at spawn time to a
/// random choice among `Corner`, `Straight` and `T`.
#[derive(Debug, Clone, Copy, PartialEq, Eq, Structural)]
pub enum TileType {
    Corner,
    Straight,
    T,
    FourWay,
    Block,
    Any,
}

/// The sides of a tile through which passage is permitted.
#[derive(Debug, Clone, Copy, PartialEq, Eq, Structural)]
pub struct OpenWays {
    pub top: bool,
    pub right: bool,
    pub bottom: bool,
    pub left: bool,
}

impl Direction {
    /// The fixed pairing of opposite directions.
    pub open spec fn spec_opposite(self) -> Direction {
        match self {
            Direction::Up => Direction::Down,
            Direction::Down => Direction::Up,
            Direction::Left => Direction::Right,
            Direction::Right => Direction::Left,
        }
    }

    pub fn opposite(self) -> (r: Direction)
        ensures
            r == self.spec_opposite(),
    {
        match self {
            Direction::Up => Direction::Down,
            Direction::Down => Direction::Up,
            Direction::Left => Direction::Right,
            Direction::Right => Direction::Left,
        }
    }
}

impl OpenWays {
    /// Whether passage through the side facing `dir` is open.
    pub open spec fn spec_open_toward(self, dir: Direction) -> bool {
        match dir {
            Direction::Up => self.top,
            Direction::Down => self.bottom,
            Direction::Left => self.left,
            Direction::Right => self.right,
        }
    }

    pub fn open_toward(self, dir: Direction) -> (r: bool)
        ensures
            r == self.spec_open_toward(dir),
    {
        match dir {
            Direction::Up => self.top,
            Direction::Down => self.bottom,
            Direction::Left => self.left,
            Direction::Right => self.right,
        }
    }
}

/// The canonical, unrotated open sides of each tile shape. An `Any`
/// tile never reaches the board unresolved; if queried it reads as a
/// corner, the same fallback the spawn path uses.
pub open spec fn spec_shape_ways(tile_type: TileType) -> OpenWays {
    match tile_type {
        TileType::Corner => OpenWays { top: false, right: false, bottom: true, left: true },
        TileType::Straight => OpenWays { top: false, right: true, bottom: false, left: true },
        TileType::T => OpenWays { top: false, right: true, bottom: true, left: true },
        TileType::FourWay => OpenWays { top: true, right: true, bottom: true, left: true },
        TileType::Block => OpenWays { top: false, right: false, bottom: false, left: false },
        TileType::Any => OpenWays { top: false, right: false, bottom: true, left: true },
    }
}

pub fn shape_ways(tile_type: TileType) -> (r: OpenWays)
    ensures
        r == spec_shape_ways(tile_type),
{
    match tile_type {
        TileType::Corner => OpenWays { top: false, right: false, bottom: true, left: true },
        TileType::Straight => OpenWays { top: false, right: true, bottom: false, left: true },
        TileType::T => OpenWays { top: false, right: true, bottom: true, left: true },
        TileType::FourWay => OpenWays { top: true, right: true, bottom: true, left: true },
        TileType::Block => OpenWays { top: false, right: false, bottom: false, left: false },
        TileType::Any => OpenWays { top: false, right: false, bottom: true, left: true },
    }
}

/// A half turn swaps opposite sides.
pub open spec fn spec_half_turn(w: OpenWays) -> OpenWays {
    OpenWays { top: w.bottom, right: w.left, bottom: w.top, left: w.right }
}

/// A quarter turn counter-clockwise: each side takes the opening of the
/// side a quarter turn clockwise from it.
pub open spec fn spec_quarter_ccw(w: OpenWays) -> OpenWays {
    OpenWays { top: w.right, right: w.bottom, bottom: w.left, left: w.top }
}

/// A quarter turn clockwise.
pub open spec fn spec_quarter_cw(w: OpenWays) -> OpenWays {
    OpenWays { top: w.left, right: w.top, bottom: w.right, left: w.bottom }
}

/// Rotation of an open-way set by an angle in degrees. Only the four
/// quarter-turn angles (with their 360-degree complements) rotate;
/// every other angle leaves the set unchanged.
pub open spec fn spec_rotate_ways(w: OpenWays, angle_deg: int) -> OpenWays {
    if angle_deg == 180 || angle_deg == -180 {
        spec_half_turn(w)
    } else if angle_deg == 90 || angle_deg == -270 {
        spec_quarter_ccw(w)
    } else if angle_deg == -90 || angle_deg == 270 {
        spec_quarter_cw(w)
    } else {
        w
    }
}

/// Rotate the open sides of a tile by `angle_deg` degrees, positive
/// angles counter-clockwise. Angles outside {0, +-90, 180, -180, +-270}
/// are not applied: the set comes back unchanged.
pub fn rotate_ways(open_ways: OpenWays, angle_deg: i32) -> (r: OpenWays)
    ensures
        r == spec_rotate_ways(open_ways, angle_deg as int),
{
    let old_ways = open_ways;
    if angle_deg == 180 || angle_deg == -180 {
        OpenWays {
            top: old_ways.bottom,
            bottom: old_ways.top,
            right: old_ways.left,
            left: old_ways.right,
        }
    } else if angle_deg == 90 || angle_deg == -270 {
        OpenWays {
            top: old_ways.right,
            bottom: old_ways.left,
            right: old_ways.bottom,
            left: old_ways.top,
        }
    } else if angle_deg == -90 || angle_deg == 270 {
        OpenWays {
            top: old_ways.left,
            bottom: old_ways.right,
            right: old_ways.top,
            left: old_ways.bottom,
        }
    } else {
        old_ways
    }
}

/// A tile as it lives on the board or on the border: its resolved
/// shape, its position, whether it may be displaced by a push, and its
/// rotated open sides.
#[derive(Debug, Clone, Copy, PartialEq, Eq, Structural)]
pub struct TileBundle {
    pub tile_type: TileType,
    pub pos: GridPosition,
    pub can_move: CanMove,
    pub open_ways: OpenWays,
}

/// Instantiate one tile at `(x_pos, y_pos)`. A template shape of `Any`
/// resolves here, once and for the tile's lifetime, to a uniformly
/// random choice among `Corner`, `Straight` and `T`; any other shape is
/// kept as given. The tile's open sides are the shape's canonical set
/// rotated by `angle` degrees.
pub fn spawn_tile(
    x_pos: i32,
    y_pos: i32,
    tile_type: TileType,
    angle: i32,
    can_move: CanMove,
    rng: &mut rand::rngs::ThreadRng,
) -> (r: TileBundle)
    ensures
        r.pos == (GridPosition { x_pos, y_pos }),
        r.can_move == can_move,
        tile_type != TileType::Any ==> r.tile_type == tile_type,
        tile_type == TileType::Any ==> (r.tile_type == TileType::Corner
            || r.tile_type == TileType::Straight || r.tile_type == TileType::T),
        r.open_ways == spec_rotate_ways(spec_shape_ways(r.tile_type), angle as int),
{
    let resolved: TileType = if tile_type == TileType::Any {
        let pick = gen_index_below(rng, 3);
        if pick == 0 {
            TileType::Corner
        } else if pick == 1 {
            TileType::Straight
        } else {
            TileType::T
        }
    } else {
        tile_type
    };

    TileBundle {
        tile_type: resolved,
        pos: GridPosition { x_pos, y_pos },
        can_move,
        open_ways: rotate_ways(shape_ways(resolved), angle),
    }
}

/// A full circle of rotations is the identity: a quarter turn one way
/// followed by a quarter turn the other way (90 then 270 degrees, 360
/// in total) restores the set, and so do two half turns.
pub proof fn lemma_rotate_full_circle(w: OpenWays)
    ensures
        spec_rotate_ways(spec_rotate_ways(w, 90), 270) == w,
        spec_rotate_ways(spec_rotate_ways(w, 180), 180) == w,
{
}

/// Composing two rotations by canonical angles rotates by the summed
/// angle: the four quarter-turn rotations are closed under composition.
pub proof fn lemma_rotate_compose(w: OpenWays, a: int, b: int)
    requires
        a == 0 || a == 90 || a == 180 || a == 270,
        b == 0 || b == 90 || b == 180 || b == 270,
    ensures
        spec_rotate_ways(spec_rotate_ways(w, a), b) == spec_rotate_ways(
            w,
            if a + b >= 360 {
                a + b - 360
            } else {
                a + b
            },
        ),
{
}

/// Opposite directions pair up both ways round.
pub proof fn lemma_opposite_involution(d: Direction)
    ensures
        d.spec_opposite().spec_opposite() == d,
{
}

} // verus!
