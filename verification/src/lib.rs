//! A breakout-style game core: a walled field of destructible blocks, a
//! diagonally moving ball, a paddle, and the per-tick rules that move the
//! ball and decide whether play goes on, is lost, or is won.

pub mod ball;
pub mod cell;
pub mod engine;
pub mod error;
pub mod field;
pub mod game;
pub mod grid;
pub mod laws;
pub mod paddle;
pub mod screen;
