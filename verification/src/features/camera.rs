//! The camera panel.

pub mod controls;
pub mod device;
pub mod laws;
pub mod panel_laws;
pub mod profiles;
pub mod rows;
