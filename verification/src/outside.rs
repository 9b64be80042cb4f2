//! # Outside types
//!
//! Types of other crates that the operator carries without looking inside.

use vstd::prelude::*;

verus! {

/// The error of the Kubernetes client, `kube::Error`.
#[verifier::external_type_specification]
#[verifier::external_body]
pub struct ExKubeError(kube::Error);

/// The error of the json library, `serde_json::Error`.
#[verifier::external_type_specification]
#[verifier::external_body]
pub struct ExJsonError(serde_json::Error);

/// The error of the addon endpoints, `clevercloud_sdk::v2::addon::Error`.
#[verifier::external_type_specification]
#[verifier::external_body]
pub struct ExAddonError(clevercloud_sdk::v2::addon::Error);

/// The error of the plan endpoints, `clevercloud_sdk::v4::addon_provider::plan::Error`.
#[verifier::external_type_specification]
#[verifier::external_body]
pub struct ExPlanError(clevercloud_sdk::v4::addon_provider::plan::Error);

/// The error of the proxy helpers, `clevercloud_sdk::oauth10a::proxy::Error`.
#[verifier::external_type_specification]
#[verifier::external_body]
pub struct ExProxyError(clevercloud_sdk::oauth10a::proxy::Error);

/// A proxy that a http connector goes through, `hyper_proxy::Proxy`.
#[verifier::external_type_specification]
#[verifier::external_body]
pub struct ExProxy(hyper_proxy::Proxy);

/// The error of input and output, `std::io::Error`.
#[verifier::external_type_specification]
#[verifier::external_body]
pub struct ExIoError(std::io::Error);

/// A path of the file system, `std::path::PathBuf`.
#[verifier::external_type_specification]
#[verifier::external_body]
pub struct ExPathBuf(std::path::PathBuf);

} // verus!
