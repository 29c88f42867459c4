//! Play-area geometry: grid cells, the fixed rectangular bounds, and the
//! four headings a snake can move in.

use vstd::prelude::*;

verus! {

/// The fixed dimensions of the rectangular play area. The outermost ring of
/// cells (`x == 0`, `y == 0`, `x == width - 1`, `y == height - 1`) is the
/// lethal border.
#[derive(Clone, Copy, PartialEq, Eq, Structural, Debug)]
pub struct Size {
    pub width: u16,
    pub height: u16,
}

/// One cell of the grid.
#[derive(Clone, Copy, PartialEq, Eq, Structural, Debug)]
pub struct Position {
    pub x: u16,
    pub y: u16,
}

/// A heading. There is no idle heading: the snake is always moving.
#[derive(Clone, Copy, PartialEq, Eq, Structural, Debug)]
pub enum Direction {
    Up,
    Down,
    Left,
    Right,
}

impl Direction {
    /// The heading that would reverse this one in place.
    pub open spec fn opposite(self) -> Direction {
        match self {
            Direction::Up => Direction::Down,
            Direction::Down => Direction::Up,
            Direction::Left => Direction::Right,
            Direction::Right => Direction::Left,
        }
    }

    /// Horizontal displacement of one grid step in this heading.
    pub open spec fn delta_x(self) -> int {
        match self {
            Direction::Left => -1,
            Direction::Right => 1,
            _ => 0,
        }
    }

    /// Vertical displacement of one grid step in this heading. The grid's
    /// y axis grows downwards, as terminal rows do.
    pub open spec fn delta_y(self) -> int {
        match self {
            Direction::Up => -1,
            Direction::Down => 1,
            _ => 0,
        }
    }
}

/// `q` lies exactly one grid step from `p` in heading `d`.
pub open spec fn steps_to(p: Position, d: Direction, q: Position) -> bool {
    q.x == p.x + d.delta_x() && q.y == p.y + d.delta_y()
}

/// The cell one grid step from `p` in heading `d`.
pub open spec fn stepped(p: Position, d: Direction) -> Position
    recommends
        0 < p.x < u16::MAX,
        0 < p.y < u16::MAX,
{
    Position { x: (p.x + d.delta_x()) as u16, y: (p.y + d.delta_y()) as u16 }
}

/// `p` lies on the lethal border ring of the play area.
pub open spec fn at_wall(p: Position, size: Size) -> bool {
    p.x == 0 || p.y == 0 || p.x == size.width - 1 || p.y == size.height - 1
}

/// `p` lies strictly inside the border ring: stepping once in any heading
/// stays within the coordinate type.
pub open spec fn interior(p: Position, size: Size) -> bool {
    0 < p.x < size.width - 1 && 0 < p.y < size.height - 1
}

} // verus!
