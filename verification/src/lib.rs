//! Rules engine for a falling-block puzzle game: a bounded grid with baked-in
//! walls and floor, a catalog of seven piece shapes, a quarter-turn rotation
//! transform, collision and placement tests, and the tick-driven lifecycle
//! that moves, locks, and clears pieces.
//!
//! The engine is a plain state machine: the host owns a [`game::GameState`],
//! drives it through the functions in [`game`], and supplies the random draws
//! that choose each freshly spawned piece.

pub mod cell;
pub mod game;
pub mod rotation;
pub mod tetromino;
pub mod universe;
