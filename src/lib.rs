//! A grid snake game: the snake's body and motion, collision and eating
//! rules, food placement and the game's life cycle, with their contracts.

pub mod draw;
pub mod game;
pub mod snake;
