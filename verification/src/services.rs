//! Work with the agent, with devices behind it, and with device art.

pub mod assets;
pub mod device_reads;
pub mod ipc;
pub mod laws;
pub mod read_laws;
