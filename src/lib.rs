//! Control plane of a tunnel server: key material, configuration types, the
//! registry of peers and their counters, the device commands that bring the
//! tunnel interface up and down, and the client session state.

pub mod api;
pub mod commands;
pub mod config;
pub mod crypto;
pub mod device;
pub mod endpoint;
pub mod error;
pub mod models;
pub mod peer;
pub mod server;
pub mod state;
