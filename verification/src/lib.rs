//! Logical core of a grid-based tile-uncovering puzzle: a board of per-cell
//! bitsets (mined / flagged / revealed), a mapper from normalized pointer
//! positions to grid cells, and the event pipeline that turns a click into a
//! board mutation and a visual-state update.

pub mod bits;
pub mod board;
pub mod coords;
pub mod game;
pub mod tiles;
