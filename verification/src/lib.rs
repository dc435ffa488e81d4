//! Bounded-size rendering of wide and tall tables: which columns and rows are
//! shown, where the markers for the hidden ones go, and how long a cell may be.

pub use comfy_table;

pub mod cell;
pub mod config;
pub mod grid;
pub mod plan;
pub mod series;
pub mod table;
