//! The game: one snake, one food, the score, and the rules of a tick.

use vstd::prelude::*;
use crate::coord::Coord;
use crate::direction::Direction;
use crate::food::Food;
use crate::grid::{
    all_inside,
    has_room,
    in_interior,
    is_free,
    lemma_short_body_leaves_room,
    on_wall,
};
use crate::snake::Snake;

verus! {

/// The number of ticks after which food that was not eaten is moved.
pub const FOOD_TIMEOUT: i32 = 100;

/// The number of cells of the snake at the start of a game.
pub const STARTING_LENGTH: i32 = 7;

/// The cells of the snake at the start of a game, head first: seven cells on
/// the middle row, centred on the middle column, the head at the right end.
pub open spec fn starting_cells(grid_height: i32, grid_width: i32) -> Seq<Coord> {
    Seq::new(
        STARTING_LENGTH as nat,
        |i: int| Coord { y: (grid_height / 2) as i32, x: (grid_width / 2 + 3 - i) as i32 },
    )
}

/// Whether a game can be played on a grid of this size. The smallest such
/// grids are 2 by 9 and 3 by 8: on these, and on no smaller ones, the
/// starting snake lies inside the walls and leaves a cell for the food, see
/// [`lemma_playable_grid`].
pub open spec fn playable(grid_height: i32, grid_width: i32) -> bool {
    grid_height >= 2 && grid_width >= 8 && (grid_height >= 3 || grid_width >= 9)
}

/// Whether a game can be played on a grid of this size, see [`playable`].
pub fn is_playable(grid_height: i32, grid_width: i32) -> (ok: bool)
    ensures
        ok == playable(grid_height, grid_width),
{
    grid_height >= 2 && grid_width >= 8 && (grid_height >= 3 || grid_width >= 9)
}

/// The playable grids are those on which every cell of the starting snake
/// lies inside the walls and at least one more cell inside them is free.
pub proof fn lemma_playable_grid(grid_height: i32, grid_width: i32)
    ensures
        playable(grid_height, grid_width) <==> {
            &&& all_inside(starting_cells(grid_height, grid_width), grid_height, grid_width)
            &&& has_room(starting_cells(grid_height, grid_width), grid_height, grid_width)
        },
{
    let cells = starting_cells(grid_height, grid_width);
    if playable(grid_height, grid_width) {
        // The interior has more cells than the snake.
        let rows = grid_height - 1;
        let columns = grid_width - 1;
        assert(rows * columns > STARTING_LENGTH) by (nonlinear_arith)
            requires
                rows >= 1,
                columns >= 7,
                rows >= 2 || columns >= 8,
        ;
        lemma_short_body_leaves_room(cells, grid_height, grid_width);
    } else if has_room(cells, grid_height, grid_width) && in_interior(
        cells[0],
        grid_height,
        grid_width,
    ) && in_interior(cells[6], grid_height, grid_width) {
        assert(grid_height == 2 && grid_width == 8);
        let spare = choose|cell: Coord| is_free(cell, cells, grid_height, grid_width);
        assert(cells[7 - spare.x] == spare);
    }
}

/// The whole state of one game. The walls are the rows `0` and
/// `grid_height` and the columns `0` and `grid_width`.
pub struct Game {
    pub food: Food,
    pub snake: Snake,
    pub food_counter: i32,
    pub score: i32,
    pub paused: bool,
    pub grid_height: i32,
    pub grid_width: i32,
}

impl Game {
    /// What holds of every game in play: the grid is playable, the snake
    /// and the food lie inside the walls, the food counter has not reached
    /// [`FOOD_TIMEOUT`], and the score is the number of cells by which the
    /// snake has grown since the start.
    ///
    /// [`Game::new`] and [`Game::restart`] establish it, and
    /// [`Game::handle_food`] and [`Game::advance`] keep it. The fields are
    /// open to the driving loop, which keeps it by moving the snake only as
    /// [`Game::advance`] does.
    pub open spec fn inv(&self) -> bool {
        &&& playable(self.grid_height, self.grid_width)
        &&& all_inside(self.snake@, self.grid_height, self.grid_width)
        &&& in_interior(self.food.coord, self.grid_height, self.grid_width)
        &&& 0 <= self.food_counter < FOOD_TIMEOUT
        &&& self.snake@.len() == STARTING_LENGTH + self.score
    }

    /// Whether moving the head to `cell` would be fatal: the cell is part of
    /// the snake, or it lies on a wall.
    pub open spec fn is_fatal(&self, cell: Coord) -> bool {
        self.snake@.contains(cell) || on_wall(cell, self.grid_height, self.grid_width)
    }

    /// The state at the start of a game. Everything is fixed by the size of
    /// the grid but the cell of the food, which is some free cell (and so
    /// not the cell of the head).
    pub open spec fn is_fresh(&self) -> bool {
        &&& self.snake@ == starting_cells(self.grid_height, self.grid_width)
        &&& self.snake.direction == Direction::Right
        &&& is_free(self.food.coord, self.snake@, self.grid_height, self.grid_width)
        &&& self.food.coord != self.snake@[0]
        &&& self.food_counter == 0
        &&& self.score == 0
        &&& !self.paused
    }

    /// Whether the food has lain long enough to be moved at the next tick.
    pub open spec fn food_times_out(&self) -> bool {
        self.food_counter + 1 == FOOD_TIMEOUT
    }

    /// Whether the snake eats at the next tick: its head lies on the food,
    /// and the food is not just being moved away.
    pub open spec fn food_is_eaten(&self) -> bool {
        !self.food_times_out() && self.snake@[0] == self.food.coord
    }

    /// A game at its start on a grid with walls at rows `0` and
    /// `grid_height` and columns `0` and `grid_width`.
    pub fn new(grid_height: i32, grid_width: i32) -> (game: Game)
        requires
            playable(grid_height, grid_width),
        ensures
            game.grid_height == grid_height,
            game.grid_width == grid_width,
            game.is_fresh(),
            game.inv(),
    {
        let row: i32 = grid_height / 2;
        let centre: i32 = grid_width / 2;
        proof {
            lemma_playable_grid(grid_height, grid_width);
        }
        let mut coords: Vec<Coord> = Vec::new();
        let mut i: i32 = -3;
        while i <= 3
            invariant
                -3 <= i <= 4,
                3 < centre < i32::MAX - 3,
                coords@.len() == i + 3,
                forall|k: int|
                    0 <= k < coords@.len() ==> coords@[k] == (Coord {
                        y: row,
                        x: (centre - 3 + k) as i32,
                    }),
            decreases 4 - i,
        {
            coords.push(Coord::new(row, centre + i));
            i += 1;
        }
        let snake = Snake::from_coords(coords.as_slice());
        assert(snake@ =~= starting_cells(grid_height, grid_width));
        let food = Food::place(&snake, grid_height, grid_width);
        Game { food, snake, food_counter: 0, score: 0, paused: false, grid_height, grid_width }
    }

    /// The food's part of a tick.
    ///
    /// The food counter goes up by one. When it reaches [`FOOD_TIMEOUT`] the
    /// food is moved to a free cell and the counter starts again; the snake
    /// cannot eat at such a tick, since the food no longer lies under it.
    /// Otherwise, when the head lies on the food, the snake grows onto it,
    /// the score goes up by one, the counter starts again and new food is
    /// put on a free cell. Otherwise nothing else changes.
    ///
    /// Where the food is to be put anew, the snake must leave a free cell:
    /// on a full board there is no place for food. A snake that leaves a
    /// free cell before the call still does so after it. The counter, and
    /// the score where it goes up, may not stand at the largest number the
    /// machine can hold.
    pub fn handle_food(&mut self)
        requires
            old(self).food_counter < i32::MAX,
            old(self).food_is_eaten() ==> old(self).score < i32::MAX,
            old(self).food_times_out() || old(self).food_is_eaten() ==> has_room(
                old(self).snake@,
                old(self).grid_height,
                old(self).grid_width,
            ),
        ensures
            old(self).inv() ==> final(self).inv(),
            has_room(old(self).snake@, old(self).grid_height, old(self).grid_width) ==> has_room(
                final(self).snake@,
                final(self).grid_height,
                final(self).grid_width,
            ),
            final(self).grid_height == old(self).grid_height,
            final(self).grid_width == old(self).grid_width,
            final(self).paused == old(self).paused,
            final(self).snake.direction == old(self).snake.direction,
            final(self).snake@ == if old(self).food_is_eaten() {
                seq![old(self).food.coord] + old(self).snake@
            } else {
                old(self).snake@
            },
            final(self).score == old(self).score + if old(self).food_is_eaten() {
                1int
            } else {
                0int
            },
            final(self).food_counter == if old(self).food_times_out() || old(self).food_is_eaten() {
                0
            } else {
                old(self).food_counter + 1
            },
            if old(self).food_times_out() || old(self).food_is_eaten() {
                &&& is_free(
                    final(self).food.coord,
                    final(self).snake@,
                    final(self).grid_height,
                    final(self).grid_width,
                )
                &&& final(self).food.coord != final(self).snake@[0]
            } else {
                final(self).food == old(self).food
            },
    {
        self.food_counter += 1;
        if self.food_counter == FOOD_TIMEOUT {
            self.make_new_food();
        }
        if self.snake.is_touching_food(self.food) {
            proof {
                // The snake grows onto its own head: it covers no new cell.
                let spare = choose|cell: Coord|
                    is_free(cell, self.snake@, self.grid_height, self.grid_width);
                let grown = seq![self.food.coord] + self.snake@;
                assert forall|k: int| 0 <= k < grown.len() implies grown[k] != spare by {
                    if k > 0 {
                        assert(grown[k] == self.snake@[k - 1]);
                    } else {
                        assert(grown[0] == self.snake@[0]);
                    }
                }
                assert(is_free(spare, grown, self.grid_height, self.grid_width));
            }
            self.snake.eat_food(self.food);
            self.score += 1;
            self.make_new_food();
        }
    }

    /// Whether moving the head to `next_step` would be fatal, see
    /// [`Game::is_fatal`]. To be asked before the move is made.
    pub fn snake_about_to_collide(&self, next_step: Coord) -> (fatal: bool)
        ensures
            fatal == self.is_fatal(next_step),
    {
        self.snake.occupies(next_step) || next_step.y == 0 || next_step.y == self.grid_height
            || next_step.x == 0 || next_step.x == self.grid_width
    }

    /// The cell one step from the head in the current heading.
    pub open spec fn next_step(&self) -> Coord {
        Coord {
            y: (self.snake@[0].y + self.snake.direction.step().y) as i32,
            x: (self.snake@[0].x + self.snake.direction.step().x) as i32,
        }
    }

    /// The cell the head would enter by one step in the current heading.
    /// Nothing is changed. The step must not lead out of the machine's
    /// integers; from a head inside the walls it never does.
    pub fn get_next_step(&self) -> (next_step: Coord)
        requires
            self.snake@[0].can_add(self.snake.direction.step()),
        ensures
            next_step.y == self.snake@[0].y + self.snake.direction.step().y,
            next_step.x == self.snake@[0].x + self.snake.direction.step().x,
            next_step == self.next_step(),
    {
        assert(self.snake.head == self.snake@[0]);
        let delta = self.snake.direction.step();
        self.snake.head + delta
    }

    /// The snake's part of a tick: asks for the next step, and makes it
    /// unless it is fatal. Returns whether the snake is still alive.
    ///
    /// A fatal step is never made, so the head never comes to lie on a wall
    /// or on the snake. While the game is paused nothing moves, but a snake
    /// that faces a fatal step dies all the same.
    pub fn advance(&mut self) -> (alive: bool)
        requires
            old(self).snake@[0].can_add(old(self).snake.direction.step()),
        ensures
            alive == !old(self).is_fatal(old(self).next_step()),
            alive && !old(self).paused ==> final(self).snake@ == seq![old(self).next_step()]
                + old(self).snake@.drop_last(),
            !alive || old(self).paused ==> final(self).snake == old(self).snake,
            final(self).snake.direction == old(self).snake.direction,
            final(self).food == old(self).food,
            final(self).food_counter == old(self).food_counter,
            final(self).score == old(self).score,
            final(self).paused == old(self).paused,
            final(self).grid_height == old(self).grid_height,
            final(self).grid_width == old(self).grid_width,
            old(self).inv() ==> final(self).inv(),
    {
        let next_step = self.get_next_step();
        if self.snake_about_to_collide(next_step) {
            false
        } else {
            self.snake.crawl(next_step, self.paused);
            true
        }
    }

    /// Starts the game again on the same grid, as [`Game::new`] would.
    pub fn restart(&mut self)
        requires
            playable(old(self).grid_height, old(self).grid_width),
        ensures
            final(self).grid_height == old(self).grid_height,
            final(self).grid_width == old(self).grid_width,
            final(self).is_fresh(),
            final(self).inv(),
    {
        *self = Game::new(self.grid_height, self.grid_width)
    }

    /// Moves the food to a free cell and starts the food counter again.
    fn make_new_food(&mut self)
        requires
            has_room(old(self).snake@, old(self).grid_height, old(self).grid_width),
        ensures
            final(self).food_counter == 0,
            is_free(
                final(self).food.coord,
                final(self).snake@,
                final(self).grid_height,
                final(self).grid_width,
            ),
            final(self).food.coord != final(self).snake@[0],
            final(self).snake == old(self).snake,
            final(self).score == old(self).score,
            final(self).paused == old(self).paused,
            final(self).grid_height == old(self).grid_height,
            final(self).grid_width == old(self).grid_width,
    {
        self.food_counter = 0;
        self.food = Food::place(&self.snake, self.grid_height, self.grid_width);
    }
}

/// Two games at their start on grids of one size differ at most in where
/// the food lies: a game started again is a game made anew.
pub proof fn lemma_fresh_games_agree(a: Game, b: Game)
    requires
        a.is_fresh(),
        b.is_fresh(),
        a.grid_height == b.grid_height,
        a.grid_width == b.grid_width,
    ensures
        a.snake@ == b.snake@,
        a.snake.head == b.snake.head,
        a.snake.body@ == b.snake.body@,
        a.snake.direction == b.snake.direction,
        a.food_counter == b.food_counter,
        a.score == b.score,
        a.paused == b.paused,
{
    assert(a.snake.head == a.snake@[0]);
    assert(b.snake.head == b.snake@[0]);
    assert(a.snake.body@ =~= a.snake@.subrange(1, a.snake@.len() as int));
    assert(b.snake.body@ =~= b.snake@.subrange(1, b.snake@.len() as int));
}

} // verus!
