//! The simulation core of a grid-based snake game.
//!
//! The crate tracks where the snake is and where it is heading, where the
//! food lies, whether the next move would be fatal, and the score. It draws
//! nothing and reads no input: a driving loop owns one [`game::Game`], asks it
//! once per tick for the next head cell and whether that cell is fatal, and
//! commits the move into the snake if it is not.
//!
//! Every function is verified against its contract. The one thing taken on
//! trust is the random number generator behind food placement, see
//! [`random`].

pub mod coord;
pub mod direction;
pub mod food;
pub mod game;
pub mod grid;
pub mod random;
pub mod snake;
