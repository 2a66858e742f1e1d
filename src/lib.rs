//! Rules of a small Sokoban puzzle: a player walks a grid of cells, pushes
//! crates one cell at a time and is stopped by walls.
//!
//! Positions are integer cell coordinates. Rendering, input devices and the
//! window live outside this crate; here are the decisions that turn a key
//! press into a new game state, the level layout and the grid arithmetic.

mod game;
mod grid;
mod level;
mod position;
mod stages;
mod util;

pub use game::Game;
pub use grid::{CELL_SIZE, Grid};
pub use level::{ARENA_HEIGHT, ARENA_WIDTH, Level, border_walls};
pub use position::{Direction, Position, direction_from_keys, push_target, step};
pub use stages::SokobanStages;
pub use util::clamp;
