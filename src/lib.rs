//! Simulation core of a grid-based snake game.
//!
//! The game state is a plain value: the body chain (head first), the
//! committed and latched headings, the food on the board and the cell the
//! tail left on the last move. Every system of a tick is a verified method
//! on that value.
mod food;
mod game;
mod geometry;
mod schedule;

pub use food::{is_free, scanned};
pub use game::{
    collides, committed, lemma_no_reversal, pressed_direction, pressed_spec, shifted, start_chain,
    uneaten, elsewhere, Game, SnakeHead, TickEvents, START_X, START_Y,
};
pub use geometry::{
    in_bounds, lemma_opposite_involutive, moved, Direction, Position, ARENA_HEIGHT, ARENA_WIDTH,
};
pub use schedule::SnakeMovement;
