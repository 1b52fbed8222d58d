//! The simulation core of a grid snake game: the board, the moving snake
//! chain with its movement clock, food placement, scoring and the screens
//! that the game shell switches between.

pub mod food;
pub mod game;
pub mod grid;
pub mod score;
pub mod snake;
pub mod state;
pub mod timer;
