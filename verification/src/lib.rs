//! Simulation core of a side-scrolling runner: a player avoids scrolling
//! spikes by jumping and, once the score is high enough, by flipping between
//! floor and ceiling, while collecting coins to spend on skins.
//!
//! Every quantity is an integer in a fixed unit (see [`constants`]), so a run
//! is reproducible bit for bit and every rule can be stated exactly.

pub mod components;
pub mod constants;
pub mod game;
pub mod input;
pub mod invariants;
pub mod random;
pub mod resources;
pub mod serial;
pub mod serial_input;
pub mod systems;
pub mod timer;
