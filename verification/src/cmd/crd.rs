//! # Custom resource definition module
//!
//! The command that interacts with the custom resource definitions.

use vstd::prelude::*;

verus! {

/// The arguments of the command, which are handed on unread.
#[derive(PartialEq, Eq, Clone, Debug)]
pub struct CustomResourceDefinition {
    pub arguments: Vec<String>,
}

/// Why the command failed.
#[derive(PartialEq, Eq, Debug)]
pub struct CustomResourceDefinitionError {
    pub message: String,
}

} // verus!
