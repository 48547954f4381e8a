//! What the main window shows.

pub mod home;
pub mod laws;
pub mod phrase;
pub mod status;
pub mod status_laws;
pub mod widgets;
