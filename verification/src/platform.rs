//! What differs between operating systems.

pub mod laws;
pub mod shortcut_key;
