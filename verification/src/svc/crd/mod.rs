//! # Custom resource module
//!
//! The custom resources that the operator reconciles.

pub mod pulsar;
