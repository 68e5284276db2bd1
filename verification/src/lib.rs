//! Rules of a grid-based snake game: a snake that moves one cell per tick on
//! a wrapping arena, eats food, grows by one segment for each piece eaten, and
//! starts over when its head runs into its own body.
//!
//! [`grid`] holds the arena, its cells and the directions; [`input`] turns
//! held arrow keys into a direction; [`food`] picks the cell of new food;
//! [`game`] holds the state of a game and its updates; [`laws`] states what
//! holds of every game.

pub mod food;
pub mod game;
pub mod grid;
pub mod input;
pub mod laws;
