//! Assembles the configuration of a desktop full node and plans its one-time
//! process bootstrap.

pub mod bootstrap;
pub mod chain_spec;
pub mod client;
pub mod configuration;
pub mod database;
pub mod identity;
pub mod network;
pub mod path;
pub mod policy;
