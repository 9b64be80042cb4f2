//! # Client module
//!
//! What comes of the creation of a Kubernetes client.

use vstd::prelude::*;

verus! {

/// Why no Kubernetes client could be created.
#[derive(PartialEq, Eq, Debug)]
pub struct ClientError {
    pub message: String,
}

} // verus!
