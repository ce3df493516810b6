//! Deterministic tick-based simulation core of a grid-confined snake game.
//!
//! The library owns snake movement, body-chain growth, wall and self
//! collision, food placement, scoring, and arena expansion. Rendering,
//! input-device polling, and scene management are external collaborators:
//! the core consumes discrete directional inputs and a per-tick time delta,
//! and emits grid coordinates, facing vectors, score values, and a terminal
//! collision signal.

pub mod arena;
pub mod food;
pub mod grid;
pub mod level;
pub mod snake;
pub mod visual;
