//! A verified gateway core for a cluster-management UI.
//!
//! The crate normalizes heterogeneous control-plane results into stable
//! response shapes: resource-type dispatch, metadata projection, provider
//! classification, kubeconfig context discovery, uptime rendering, and
//! soft-error normalization.

pub mod cluster;
pub mod discovery;
pub mod errors;
pub mod exec;
pub mod resources;
pub mod text;
pub mod types;
pub mod workloads;
