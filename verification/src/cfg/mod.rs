//! Server configuration.
pub mod config;
pub mod defaults;
pub mod dump;
pub mod env;
pub mod jwt;
pub mod memory_size;
pub mod paths;
pub mod peer;
pub mod settings;
