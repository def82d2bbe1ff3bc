//! The food and where it may be put.

use vstd::prelude::*;
use crate::coord::Coord;
use crate::grid::{all_inside, has_room, in_interior, is_free, precedes};
use crate::random::random_in_range;
use crate::snake::Snake;

verus! {

/// How many random cells [`Food::place`] draws. Where the snake lies on all
/// of them, the food goes to the first free cell instead.
pub const PLACEMENT_ATTEMPTS: u32 = 128;

/// The one cell the snake is after.
#[derive(Clone, Copy, Debug, PartialEq, Eq, Structural)]
pub struct Food {
    pub coord: Coord,
}

/// Whether `candidates[i]` is free and no candidate before it is.
pub open spec fn is_first_free_at(
    i: int,
    candidates: Seq<Coord>,
    body: Seq<Coord>,
    grid_height: i32,
    grid_width: i32,
) -> bool {
    &&& 0 <= i < candidates.len()
    &&& is_free(candidates[i], body, grid_height, grid_width)
    &&& forall|j: int|
        0 <= j < i ==> !is_free(#[trigger] candidates[j], body, grid_height, grid_width)
}

/// Whether `cell` is where food goes, given the cells to try: the first of
/// `candidates` that is free or, where none of them is, the first free cell
/// in reading order.
pub open spec fn is_placement(
    cell: Coord,
    candidates: Seq<Coord>,
    body: Seq<Coord>,
    grid_height: i32,
    grid_width: i32,
) -> bool {
    &&& is_free(cell, body, grid_height, grid_width)
    &&& if exists|i: int| is_first_free_at(i, candidates, body, grid_height, grid_width) {
        exists|i: int|
            is_first_free_at(i, candidates, body, grid_height, grid_width) && candidates[i] == cell
    } else {
        forall|other: Coord|
            #![trigger is_free(other, body, grid_height, grid_width)]
            #![trigger precedes(other, cell)]
            is_free(other, body, grid_height, grid_width) ==> !precedes(other, cell)
    }
}

impl Food {
    /// Food on the first free cell in reading order, or `None` when the
    /// snake covers the whole interior.
    pub fn first_free(snake: &Snake, grid_height: i32, grid_width: i32) -> (found: Option<Food>)
        ensures
            match found {
                Some(food) => {
                    &&& is_free(food.coord, snake@, grid_height, grid_width)
                    &&& forall|other: Coord|
                        #![trigger is_free(other, snake@, grid_height, grid_width)]
                        #![trigger precedes(other, food.coord)]
                        is_free(other, snake@, grid_height, grid_width) ==> !precedes(
                            other,
                            food.coord,
                        )
                },
                None => !has_room(snake@, grid_height, grid_width),
            },
    {
        let mut y: i32 = 1;
        while y < grid_height
            invariant
                1 <= y,
                forall|cell: Coord|
                    #[trigger] in_interior(cell, grid_height, grid_width) && cell.y < y
                        ==> snake@.contains(cell),
            decreases grid_height - y,
        {
            let mut x: i32 = 1;
            while x < grid_width
                invariant
                    1 <= y < grid_height,
                    1 <= x,
                    forall|cell: Coord|
                        #[trigger] in_interior(cell, grid_height, grid_width) && cell.y < y
                            ==> snake@.contains(cell),
                    forall|cell: Coord|
                        #[trigger] in_interior(cell, grid_height, grid_width) && cell.y == y
                            && cell.x < x ==> snake@.contains(cell),
                decreases grid_width - x,
            {
                let cell = Coord::new(y, x);
                if !snake.occupies(cell) {
                    assert forall|other: Coord|
                        is_free(other, snake@, grid_height, grid_width) implies !precedes(
                        other,
                        cell,
                    ) by {
                        assert(in_interior(other, grid_height, grid_width));
                    }
                    return Some(Food { coord: cell });
                }
                x += 1;
            }
            y += 1;
        }
        assert forall|cell: Coord| !is_free(cell, snake@, grid_height, grid_width) by {
            if in_interior(cell, grid_height, grid_width) {
                assert(snake@.contains(cell));
            }
        }
        None
    }

    /// Puts food on the first of `candidates` that is a free cell or, where
    /// none of them is, on the first free cell in reading order.
    ///
    /// The snake must leave a free cell: on a full board there is no place
    /// for food.
    pub fn place_among(
        candidates: &[Coord],
        snake: &Snake,
        grid_height: i32,
        grid_width: i32,
    ) -> (food: Food)
        requires
            has_room(snake@, grid_height, grid_width),
        ensures
            is_placement(food.coord, candidates@, snake@, grid_height, grid_width),
    {
        let n: usize = candidates.len();
        let mut i: usize = 0;
        while i < n
            invariant
                n == candidates@.len(),
                i <= n,
                forall|j: int|
                    0 <= j < i ==> !is_free(
                        #[trigger] candidates@[j],
                        snake@,
                        grid_height,
                        grid_width,
                    ),
            decreases n - i,
        {
            let cell: Coord = candidates[i];
            let inside: bool = 0 < cell.y && cell.y < grid_height
                && 0 < cell.x && cell.x < grid_width;
            if inside && !snake.occupies(cell) {
                assert(is_first_free_at(i as int, candidates@, snake@, grid_height, grid_width));
                return Food { coord: cell };
            }
            i += 1;
        }
        match Food::first_free(snake, grid_height, grid_width) {
            Some(food) => food,
            None => vstd::pervasive::unreached(),
        }
    }

    /// Puts food on a free cell of the interior.
    ///
    /// [`PLACEMENT_ATTEMPTS`] cells are drawn at random from the whole
    /// interior, and [`Food::place_among`] picks among them: the first one
    /// on which the snake does not lie is taken, and where it lies on all of
    /// them, the first free cell in reading order. Which free cell comes
    /// back is left to chance.
    ///
    /// The snake must leave a free cell: on a full board there is no place
    /// for food.
    pub fn place(snake: &Snake, grid_height: i32, grid_width: i32) -> (food: Food)
        requires
            has_room(snake@, grid_height, grid_width),
        ensures
            is_free(food.coord, snake@, grid_height, grid_width),
            food.coord != snake@[0],
    {
        proof {
            let free = choose|cell: Coord| is_free(cell, snake@, grid_height, grid_width);
            assert(in_interior(free, grid_height, grid_width));
        }
        assert(snake@.contains(snake@[0]));
        let candidates: Vec<Coord> = Food::draw_candidates(grid_height, grid_width);
        Food::place_among(candidates.as_slice(), snake, grid_height, grid_width)
    }

    /// [`PLACEMENT_ATTEMPTS`] cells of the interior, each drawn at random:
    /// first its row, then its column.
    fn draw_candidates(grid_height: i32, grid_width: i32) -> (candidates: Vec<Coord>)
        requires
            1 < grid_height,
            1 < grid_width,
        ensures
            candidates@.len() == PLACEMENT_ATTEMPTS,
            all_inside(candidates@, grid_height, grid_width),
    {
        let mut rng = rand::thread_rng();
        let mut candidates: Vec<Coord> = Vec::new();
        let mut drawn: u32 = 0;
        while drawn < PLACEMENT_ATTEMPTS
            invariant
                1 < grid_height,
                1 < grid_width,
                drawn <= PLACEMENT_ATTEMPTS,
                candidates@.len() == drawn,
                all_inside(candidates@, grid_height, grid_width),
            decreases PLACEMENT_ATTEMPTS - drawn,
        {
            let y: i32 = random_in_range(&mut rng, 1, grid_height);
            let x: i32 = random_in_range(&mut rng, 1, grid_width);
            candidates.push(Coord::new(y, x));
            drawn += 1;
        }
        candidates
    }
}

/// The free cell that [`Food::place_among`] picks is the only one that it
/// can pick: the candidates, the snake and the grid decide where the food
/// goes.
pub proof fn lemma_placement_is_unique(
    a: Coord,
    b: Coord,
    candidates: Seq<Coord>,
    body: Seq<Coord>,
    grid_height: i32,
    grid_width: i32,
)
    requires
        is_placement(a, candidates, body, grid_height, grid_width),
        is_placement(b, candidates, body, grid_height, grid_width),
    ensures
        a == b,
{
    if exists|i: int| is_first_free_at(i, candidates, body, grid_height, grid_width) {
        let i = choose|i: int| is_first_free_at(i, candidates, body, grid_height, grid_width);
        assert forall|k: int|
            is_first_free_at(k, candidates, body, grid_height, grid_width) implies k == i by {}
    } else {
        assert(!precedes(a, b));
        assert(!precedes(b, a));
    }
}

} // verus!
