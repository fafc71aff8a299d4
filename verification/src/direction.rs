//! Headings on the grid and the cell that lies one step away.

use vstd::prelude::*;

verus! {

/// One of the four headings. The `y` axis grows downwards, as on a screen.
#[derive(Debug, Clone, Copy, PartialEq, Eq, Structural)]
pub enum Direction {
    Up,
    Down,
    Left,
    Right,
}

impl Direction {
    /// The heading that points the other way.
    pub open spec fn opposite_spec(&self) -> Direction {
        match *self {
            Direction::Up => Direction::Down,
            Direction::Down => Direction::Up,
            Direction::Left => Direction::Right,
            Direction::Right => Direction::Left,
        }
    }

    /// Horizontal change of one step.
    pub open spec fn dx(&self) -> int {
        match *self {
            Direction::Left => -1,
            Direction::Right => 1,
            _ => 0,
        }
    }

    /// Vertical change of one step.
    pub open spec fn dy(&self) -> int {
        match *self {
            Direction::Up => -1,
            Direction::Down => 1,
            _ => 0,
        }
    }

    /// The heading that points the other way.
    #[verifier::when_used_as_spec(opposite_spec)]
    pub fn opposite(&self) -> (r: Direction)
        ensures
            r == self.opposite_spec(),
    {
        match *self {
            Direction::Up => Direction::Down,
            Direction::Down => Direction::Up,
            Direction::Left => Direction::Right,
            Direction::Right => Direction::Left,
        }
    }
}

/// The cell one step from `cell` in direction `d`, as unbounded integers.
pub open spec fn neighbour(cell: (i32, i32), d: Direction) -> (int, int) {
    (cell.0 + d.dx(), cell.1 + d.dy())
}

/// Whether both coordinates fit a grid coordinate.
pub open spec fn fits_cell(p: (int, int)) -> bool {
    i32::MIN <= p.0 <= i32::MAX && i32::MIN <= p.1 <= i32::MAX
}

/// Turning round twice gives the heading back, and no heading is its own
/// opposite.
pub proof fn lemma_opposite_involution(d: Direction)
    ensures
        d.opposite_spec().opposite_spec() == d,
        d.opposite_spec() != d,
        neighbour((0, 0), d.opposite_spec()) == (-d.dx(), -d.dy()),
{
}

} // verus!
