//! Records shared with the desktop client.

pub mod config;
pub mod msg;
pub mod relay;
