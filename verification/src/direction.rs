//! The four headings.

use vstd::prelude::*;
use crate::coord::Coord;

verus! {

/// A heading on the grid.
#[derive(Clone, Copy, Debug, PartialEq, Eq, Structural)]
pub enum Direction {
    Up,
    Down,
    Left,
    Right,
}

impl Direction {
    /// The heading that points the other way.
    pub open spec fn spec_opposite(self) -> Direction {
        match self {
            Direction::Up => Direction::Down,
            Direction::Down => Direction::Up,
            Direction::Left => Direction::Right,
            Direction::Right => Direction::Left,
        }
    }

    /// The heading that points the other way.
    #[verifier::when_used_as_spec(spec_opposite)]
    pub fn opposite(self) -> (d: Direction)
        ensures
            d == self.spec_opposite(),
    {
        match self {
            Direction::Up => Direction::Down,
            Direction::Down => Direction::Up,
            Direction::Left => Direction::Right,
            Direction::Right => Direction::Left,
        }
    }

    /// The displacement of one step in this heading. Rows grow downwards.
    pub open spec fn spec_step(self) -> Coord {
        match self {
            Direction::Up => Coord { y: -1i32, x: 0 },
            Direction::Down => Coord { y: 1, x: 0 },
            Direction::Left => Coord { y: 0, x: -1i32 },
            Direction::Right => Coord { y: 0, x: 1 },
        }
    }

    /// The displacement of one step in this heading. Rows grow downwards.
    #[verifier::when_used_as_spec(spec_step)]
    pub fn step(self) -> (delta: Coord)
        ensures
            delta == self.spec_step(),
    {
        match self {
            Direction::Up => Coord::new(-1, 0),
            Direction::Down => Coord::new(1, 0),
            Direction::Left => Coord::new(0, -1),
            Direction::Right => Coord::new(0, 1),
        }
    }
}

} // verus!
