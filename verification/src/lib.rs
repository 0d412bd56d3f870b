pub mod command;
pub mod direction;
pub mod game;
pub mod point;
pub mod render;
mod rng;
pub mod snake;
pub mod text;
