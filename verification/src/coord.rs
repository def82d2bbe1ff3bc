//! Grid cells.

use vstd::prelude::*;
use vstd::std_specs::ops::AddSpecImpl;

verus! {

/// One cell of the grid, or a displacement between two cells: a row `y`
/// counted downwards and a column `x` counted to the right.
#[derive(Clone, Copy, Debug, PartialEq, Eq, Structural)]
pub struct Coord {
    pub y: i32,
    pub x: i32,
}

impl Coord {
    /// The cell in row `y` and column `x`.
    pub fn new(y: i32, x: i32) -> (c: Coord)
        ensures
            c.y == y,
            c.x == x,
    {
        Coord { y, x }
    }

    /// Whether both coordinates of `self + other` fit the machine integers.
    pub open spec fn can_add(self, other: Coord) -> bool {
        &&& i32::MIN <= self.y + other.y <= i32::MAX
        &&& i32::MIN <= self.x + other.x <= i32::MAX
    }
}

/// What `+` means on cells: the sum is taken coordinate by coordinate, and
/// it may only be taken where both sums fit the machine integers.
impl AddSpecImpl for Coord {
    open spec fn obeys_add_spec() -> bool {
        true
    }

    open spec fn add_req(self, other: Coord) -> bool {
        self.can_add(other)
    }

    open spec fn add_spec(self, other: Coord) -> Coord {
        Coord { y: (self.y + other.y) as i32, x: (self.x + other.x) as i32 }
    }
}

impl core::ops::Add for Coord {
    type Output = Coord;

    /// The cell reached from `self` by the displacement `other`.
    fn add(self, other: Coord) -> Coord {
        Coord { y: self.y + other.y, x: self.x + other.x }
    }
}

} // verus!
