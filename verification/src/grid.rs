//! The geometry of the playing field.
//!
//! A grid is given by two numbers, `grid_height` and `grid_width`. Its walls
//! are the rows `0` and `grid_height` and the columns `0` and `grid_width`;
//! the cells strictly between them are its interior, the only place where
//! the snake may move and food may lie.

use vstd::arithmetic::div_mod::{
    lemma_div_pos_is_pos,
    lemma_fundamental_div_mod,
    lemma_mod_pos_bound,
    lemma_multiply_divide_lt,
};
use vstd::prelude::*;
use vstd::seq_lib::seq_to_set_is_finite;
use vstd::set_lib::{lemma_int_range, lemma_len_subset, set_int_range};
use crate::coord::Coord;

verus! {

/// Whether `cell` lies strictly inside the walls.
pub open spec fn in_interior(cell: Coord, grid_height: i32, grid_width: i32) -> bool {
    0 < cell.y < grid_height && 0 < cell.x < grid_width
}

/// Whether `cell` lies on one of the four walls.
pub open spec fn on_wall(cell: Coord, grid_height: i32, grid_width: i32) -> bool {
    cell.y == 0 || cell.y == grid_height || cell.x == 0 || cell.x == grid_width
}

/// Whether every cell of `body` lies strictly inside the walls.
pub open spec fn all_inside(body: Seq<Coord>, grid_height: i32, grid_width: i32) -> bool {
    forall|i: int| 0 <= i < body.len() ==> in_interior(#[trigger] body[i], grid_height, grid_width)
}

/// Whether `cell` is an interior cell on which no part of `body` lies.
pub open spec fn is_free(cell: Coord, body: Seq<Coord>, grid_height: i32, grid_width: i32) -> bool {
    in_interior(cell, grid_height, grid_width) && !body.contains(cell)
}

/// Whether `body` leaves at least one interior cell free.
pub open spec fn has_room(body: Seq<Coord>, grid_height: i32, grid_width: i32) -> bool {
    exists|cell: Coord| is_free(cell, body, grid_height, grid_width)
}

/// Reading order: `a` comes before `b` when it lies in a row further up, or
/// in the same row further left.
pub open spec fn precedes(a: Coord, b: Coord) -> bool {
    a.y < b.y || (a.y == b.y && a.x < b.x)
}

/// The number of cells strictly inside the walls.
pub open spec fn interior_size(grid_height: i32, grid_width: i32) -> int {
    if grid_height > 1 && grid_width > 1 {
        (grid_height - 1) * (grid_width - 1)
    } else {
        0
    }
}

/// Among the numbers from `0` up to `bound`, one is missing from every
/// sequence shorter than `bound`.
proof fn lemma_missing_number(numbers: Seq<int>, bound: int) -> (missing: int)
    requires
        numbers.len() < bound,
    ensures
        0 <= missing < bound,
        !numbers.contains(missing),
{
    let all = set_int_range(0, bound);
    let seen = numbers.to_set();
    lemma_int_range(0, bound);
    seq_to_set_is_finite(numbers);
    numbers.lemma_cardinality_of_set();
    if all.subset_of(seen) {
        lemma_len_subset(all, seen);
    }
    let missing = choose|n: int| all.contains(n) && !seen.contains(n);
    missing
}

/// A body of fewer cells than the interior has cannot cover the interior,
/// wherever its cells lie: to know that there is room for food it is enough
/// to count.
pub proof fn lemma_short_body_leaves_room(body: Seq<Coord>, grid_height: i32, grid_width: i32)
    requires
        body.len() < interior_size(grid_height, grid_width),
    ensures
        has_room(body, grid_height, grid_width),
{
    let rows = grid_height - 1;
    let columns = grid_width - 1;
    // Number the interior cells in reading order, and find a number that no
    // cell of the body bears.
    let number = |cell: Coord| (cell.y - 1) * columns + (cell.x - 1);
    let numbers = body.map_values(number);
    let missing = lemma_missing_number(numbers, rows * columns);
    let row = missing / columns;
    let column = missing % columns;
    lemma_div_pos_is_pos(missing, columns);
    lemma_mod_pos_bound(missing, columns);
    lemma_fundamental_div_mod(missing, columns);
    assert(row < rows) by {
        assert(columns * rows == rows * columns) by (nonlinear_arith);
        lemma_multiply_divide_lt(missing, columns, rows);
    }
    let spare = Coord { y: (row + 1) as i32, x: (column + 1) as i32 };
    assert(number(spare) == missing) by {
        assert(row * columns == columns * row) by (nonlinear_arith);
    }
    assert forall|k: int| 0 <= k < body.len() implies body[k] != spare by {
        if body[k] == spare {
            assert(numbers[k] == missing);
        }
    }
    assert(is_free(spare, body, grid_height, grid_width));
}

} // verus!
