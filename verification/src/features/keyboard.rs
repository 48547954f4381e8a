//! The keyboard panel.

pub mod editors;
pub mod function_row;
pub mod key_points;
pub mod laws;
pub mod row_laws;
