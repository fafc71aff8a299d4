//! A snake arcade game on a bounded grid, with its rules stated and proved.
//!
//! The snake moves one cell at a time, grows when its head reaches the food,
//! and the game ends when a move would leave the playable interior of the
//! board or run into the snake's own body.

pub mod direction;
pub mod draw;
pub mod game;
pub mod laws;
pub mod random;
pub mod rules;
pub mod snake;
