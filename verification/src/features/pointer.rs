//! The pointer panels.

pub mod dpi;
pub mod laws;
pub mod panel_laws;
pub mod report_rate;
pub mod smartshift;
