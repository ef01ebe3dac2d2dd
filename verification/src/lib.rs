//! Conway's Game of Life on a fixed-size grid whose edges wrap around.
//!
//! The crate holds the simulation only: the grid of cells, the rule that
//! counts live neighbours across the wrapped edges, and the step from one
//! generation to the next. A host program owns the window, the clock and the
//! input devices; it hands clicks and elapsed time to a [`GameState`] and
//! reads the cells back to paint them.

pub mod cell;
pub mod game;
pub mod laws;
pub mod position;
pub mod rules;

pub use cell::{Cell, State};
pub use game::{GameState, MILLIS_PER_UPDATE, UPDATES_PER_SECOND};
pub use position::{
    cell_at_pixel, wrap, GridPosition, PixelRect, CELL_HEIGHT, CELL_WIDTH, GRID_HEIGHT,
    GRID_WIDTH, SCREEN_HEIGHT, SCREEN_WIDTH,
};
pub use rules::next_state;
