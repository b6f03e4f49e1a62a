//! Verified core logic of the Diom server and its Kubernetes operator.
pub mod text;
pub mod json;
pub mod bootstrap;
pub mod cfg;
pub mod operator;
pub mod cluster;
pub mod http;
pub mod metrics;
pub mod auth;
pub mod jwt;
pub mod uid;
pub mod telemetry;
