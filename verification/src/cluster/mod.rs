//! The replicated core of the server: its log cache, snapshots, background jobs and the
//! decisions that drive discovery and membership.
pub mod apply;
pub mod discovery;
pub mod endpoints;
pub mod flush;
pub mod jobs;
pub mod log_cache;
pub mod membership;
pub mod network;
pub mod node;
pub mod readiness;
pub mod request_key;
pub mod snapshot;
pub mod streaming;
pub mod types;
