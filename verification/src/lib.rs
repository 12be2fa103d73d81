//! A verified falling-block game engine: the piece and board model,
//! collision and rotation resolution with an ordered kick search,
//! line clearing, a fair bag-based piece sequencer, hold-piece swapping,
//! and ghost-piece projection, together with the thin game shell
//! (menus, level table, tick accumulator) that drives the engine.

pub mod board;
pub mod game;
pub mod levels;
pub mod pieces;
pub mod sequence;
pub mod shell;
pub mod ticker;
