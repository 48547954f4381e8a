//! The settings app's logic: what it decides about devices, profiles, assets
//! and the background agent, with contracts that say what each decision is.

pub mod binding;
pub mod device;
pub mod features;
pub mod hid;
pub mod order;
pub mod platform;
pub mod rank;
pub mod record;
pub mod services;
pub mod state;
pub mod table;
pub mod text;
pub mod window;
