//! Simulation core of a grid-based snake game: direction handling, chain
//! movement, growth on eating, collision detection and food placement.

pub mod grid;
pub mod snake;
pub mod food;
pub mod game;
pub mod laws;
