//! Conway's Game of Life on a bounded grid: the cell buffer, the Moore
//! neighbourhood without wraparound, the generation step, parsing of text
//! patterns and rendering of frames.

pub mod cell;
pub mod field;
pub mod laws;
pub mod pattern;

pub use cell::Cell;
pub use field::{Field, FieldError, FieldModel};
