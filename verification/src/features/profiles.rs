//! Per-application profiles.

pub mod catalog;
pub mod laws;
pub mod model;
pub mod names;
pub mod panel_laws;
pub mod picker;
