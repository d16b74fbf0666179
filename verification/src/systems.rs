//! The rules of the game, one module per concern.

pub mod movement;
pub mod obstacles;
pub mod coin;
pub mod collision;
pub mod score;
pub mod shop;
pub mod menu;
pub mod restart;
pub mod setup;
