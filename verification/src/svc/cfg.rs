//! # Configuration module
//!
//! The part of the configuration that decides how the daemon runs.

use vstd::prelude::*;

verus! {

/// How the operator itself is run.
#[derive(PartialEq, Eq, Debug)]
pub struct Operator {
    /// The address that the http server listens on.
    pub listen: String,
}

/// The proxy to go through to reach the Clever Cloud api.
#[derive(PartialEq, Eq, Debug)]
pub struct ProxyConfiguration {
    pub http: Option<String>,
    pub https: Option<String>,
    /// The hosts that are reached without the proxy.
    pub no: Vec<String>,
}

/// The configuration of the daemon.
#[derive(PartialEq, Eq, Debug)]
pub struct Configuration {
    pub operator: Operator,
    pub proxy: Option<ProxyConfiguration>,
}

} // verus!
