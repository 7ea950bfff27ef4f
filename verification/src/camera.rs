//! The frame acquisition and distribution engine.

pub mod config;
pub mod control;
pub mod device;
pub mod distribution;
pub mod gauge;
pub mod messages;
pub mod registry;
pub mod switch;
