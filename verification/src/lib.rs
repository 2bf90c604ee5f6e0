//! Pooled [butane] connections for Rocket's synchronous database pools.
//!
//! The crate turns the block `databases.<name>` of a Rocket configuration
//! into a typed [`DBConfig`], layering the defaults beneath what the block
//! names itself, and prepares from it the connection manager and the bound
//! of an r2d2 pool. These rules are verified; the calls into butane, figment
//! and r2d2 that they rest on are listed in [`bindings`].

pub mod bindings;
pub mod config;
pub mod connection;
pub mod manager;
pub mod pool;

pub use config::{ConfigError, DBConfig, Entry, Field, Settings};
pub use connection::ConnectionWrapper;
pub use manager::ManagerWrapper;
pub use pool::{PoolError, PoolSetup};
