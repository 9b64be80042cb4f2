//! # Service module
//!
//! Configuration, Kubernetes objects, Clever Cloud requests and the custom
//! resources of the operator.

pub mod cfg;
pub mod clevercloud;
pub mod crd;
pub mod k8s;
