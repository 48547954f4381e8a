//! The lighting panels.

pub mod device;
pub mod laws;
pub mod panel_laws;
pub mod preview;
pub mod standalone;
