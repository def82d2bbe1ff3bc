//! The snake: the cells it lies on, its heading, and the two ways it changes.

use std::collections::VecDeque;
use vstd::prelude::*;
use crate::coord::Coord;
use crate::direction::Direction;
use crate::food::Food;

verus! {

/// The creature. `head` is the cell entered last, `body` holds the cells
/// behind it, nearest first, and `direction` is its heading. The view
/// `snake@` is the whole of it, head first, so it is never empty.
///
/// A driving loop turns the snake with [`Snake::set_direction`], which
/// refuses to reverse it.
#[derive(Clone)]
pub struct Snake {
    pub head: Coord,
    pub body: VecDeque<Coord>,
    pub direction: Direction,
}

impl View for Snake {
    type V = Seq<Coord>;

    open spec fn view(&self) -> Seq<Coord> {
        seq![self.head] + self.body@
    }
}

impl Snake {
    /// A snake of one cell at the origin, heading right.
    pub fn new() -> (snake: Snake)
        ensures
            snake@ == seq![Coord { y: 0, x: 0 }],
            snake.direction == Direction::Right,
    {
        let snake = Snake {
            head: Coord::new(0, 0),
            body: VecDeque::new(),
            direction: Direction::Right,
        };
        assert(snake@ =~= seq![Coord { y: 0, x: 0 }]);
        snake
    }

    /// A snake heading right that lies on `coords`, given from the tail's end
    /// to the head. Without any cell it is the snake of [`Snake::new`].
    pub fn from_coords(coords: &[Coord]) -> (snake: Snake)
        ensures
            coords@.len() > 0 ==> snake@ == coords@.reverse(),
            coords@.len() == 0 ==> snake@ == seq![Coord { y: 0, x: 0 }],
            snake.direction == Direction::Right,
    {
        let mut snake = Snake::new();
        assert(snake.body@.len() == 0) by {
            assert(snake@.len() == 1);
        }
        let n: usize = coords.len();
        if n > 0 {
            snake.head = coords[n - 1];
            let mut i: usize = 0;
            while i < n - 1
                invariant
                    n == coords@.len(),
                    i <= n - 1,
                    snake.head == coords@[n - 1],
                    snake.body@.len() == i,
                    forall|k: int| 0 <= k < i ==> snake.body@[k] == coords@[i - 1 - k],
                    snake.direction == Direction::Right,
                decreases n - 1 - i,
            {
                let ghost before = snake.body@;
                snake.body.push_front(coords[i]);
                assert forall|k: int| 0 <= k < i + 1 implies snake.body@[k] == coords@[i - k] by {
                    if k > 0 {
                        assert(snake.body@[k] == before[k - 1]);
                    }
                }
                i += 1;
            }
            assert(snake@ =~= coords@.reverse());
        }
        snake
    }

    /// Whether the snake lies on `cell`, with its head or any other part.
    pub fn occupies(&self, cell: Coord) -> (found: bool)
        ensures
            found == self@.contains(cell),
    {
        if self.head == cell {
            assert(self@[0] == cell);
            return true;
        }
        let n: usize = self.body.len();
        let mut i: usize = 0;
        while i < n
            invariant
                n == self.body@.len(),
                i <= n,
                self.head != cell,
                forall|k: int| 0 <= k < i ==> self.body@[k] != cell,
            decreases n - i,
        {
            if self.body[i] == cell {
                assert(self@[i + 1] == cell);
                return true;
            }
            i += 1;
        }
        assert forall|k: int| 0 <= k < self@.len() implies self@[k] != cell by {
            if k > 0 {
                assert(self@[k] == self.body@[k - 1]);
            }
        }
        false
    }

    /// Turns the snake towards `direction`, unless that is the opposite of
    /// its heading: a request to reverse is ignored. The cells stay as they
    /// are.
    pub fn set_direction(&mut self, direction: Direction)
        ensures
            final(self).direction == if direction == old(self).direction.opposite() {
                old(self).direction
            } else {
                direction
            },
            final(self).head == old(self).head,
            final(self).body == old(self).body,
    {
        if direction != self.forbidden_direction(self.direction) {
            self.direction = direction;
        }
    }

    /// Slides the snake one cell on: `next_step` becomes the head and the
    /// last cell is given up. While `paused` nothing moves.
    pub fn crawl(&mut self, next_step: Coord, paused: bool)
        ensures
            paused ==> *final(self) == *old(self),
            !paused ==> final(self)@ == seq![next_step] + old(self)@.drop_last(),
            final(self)@.len() == old(self)@.len(),
            final(self).direction == old(self).direction,
    {
        if !paused {
            let old_head = self.head;
            self.head = next_step;
            self.body.push_front(old_head);
            self.body.pop_back();
            assert(self@ =~= seq![next_step] + old(self)@.drop_last());
        }
    }

    /// Whether the head lies on the food.
    pub fn is_touching_food(&self, food: Food) -> (touching: bool)
        ensures
            touching == (self@[0] == food.coord),
    {
        self.head == food.coord
    }

    /// Grows the snake onto the food: the food's cell becomes the head and
    /// every cell the snake had stays, the old head right behind the new one.
    pub fn eat_food(&mut self, food: Food)
        ensures
            final(self)@ == seq![food.coord] + old(self)@,
            final(self)@.len() == old(self)@.len() + 1,
            final(self).direction == old(self).direction,
    {
        let old_head = self.head;
        self.head = food.coord;
        self.body.push_front(old_head);
        assert(self@ =~= seq![food.coord] + old(self)@);
    }

    /// The heading into which a snake heading `direction` may not turn: the
    /// opposite one.
    pub fn forbidden_direction(&self, direction: Direction) -> (forbidden: Direction)
        ensures
            forbidden == direction.opposite(),
    {
        direction.opposite()
    }
}

} // verus!
