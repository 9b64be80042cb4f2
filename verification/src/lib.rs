//! # Clever Cloud operator
//!
//! The decisions of a Kubernetes operator that manages Clever Cloud addons:
//! how the daemon starts and stops, and how the Pulsar custom resource is
//! reconciled. Everything that talks to a cluster, to the Clever Cloud api or
//! to the operating system is asked for as a request and answered by a reply.

pub mod cmd;
pub mod outside;
pub mod svc;
