//! A small, fully specified Snake game core.
//!
//! The library holds the simulation: the body segment chain, the board with
//! its one-tick update rule, input interpretation, and the projection of a
//! board into a character grid. Terminal I/O (screen clearing, key reads,
//! sleeping) lives outside the library.

pub mod board;
pub mod game;
pub mod laws;
pub mod render;

