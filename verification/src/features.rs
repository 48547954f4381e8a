//! The panels: what each of them shows and what a click in it does.

pub mod action_ring;
pub mod camera;
pub mod keyboard;
pub mod lighting;
pub mod mouse;
pub mod pointer;
pub mod profiles;
