//! The mouse panel.

pub mod geometry;
pub mod hotspots;
pub mod inspector;
pub mod laws;
pub mod layout;
pub mod panel_laws;
pub mod thumbwheel;
