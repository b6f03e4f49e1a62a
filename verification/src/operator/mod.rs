//! The Kubernetes operator that runs Diom clusters.
pub mod conditions;
pub mod error;
pub mod pvcs;
pub mod reconcile;
pub mod resources;
pub mod spec;
pub mod statefulset;
pub mod status;
