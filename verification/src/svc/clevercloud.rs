//! # Clever Cloud module
//!
//! What the operator sends to the Clever Cloud api, and the errors that come
//! back from it.

use clevercloud_sdk::v2;
use clevercloud_sdk::v4::addon_provider::{plan, AddonProviderId};
use vstd::prelude::*;

verus! {

// -----------------------------------------------------------------------------
// RequestError enum

/// A request to the Clever Cloud api that failed.
#[derive(Debug)]
pub enum RequestError {
    Addon(v2::addon::Error),
    Plan(plan::Error),
}

impl From<v2::addon::Error> for RequestError {
    fn from(err: v2::addon::Error) -> (res: Self)
        ensures
            res == Self::Addon(err),
    {
        Self::Addon(err)
    }
}

impl vstd::std_specs::convert::FromSpecImpl<v2::addon::Error> for RequestError {
    open spec fn obeys_from_spec() -> bool {
        true
    }

    open spec fn from_spec(err: v2::addon::Error) -> Self {
        RequestError::Addon(err)
    }
}

impl From<plan::Error> for RequestError {
    fn from(err: plan::Error) -> (res: Self)
        ensures
            res == Self::Plan(err),
    {
        Self::Plan(err)
    }
}

impl vstd::std_specs::convert::FromSpecImpl<plan::Error> for RequestError {
    open spec fn obeys_from_spec() -> bool {
        true
    }

    open spec fn from_spec(err: plan::Error) -> Self {
        RequestError::Plan(err)
    }
}

impl RequestError {
    /// Whether `text` is what the carried error displays.
    pub open spec fn reads(self, text: Seq<char>) -> bool {
        match self {
            RequestError::Addon(err) => exists|cause: String|
                text == cause@ && #[trigger] vstd::string::to_string_from_display_ensures::<
                    v2::addon::Error,
                >(&err, cause),
            RequestError::Plan(err) => exists|cause: String|
                text == cause@ && #[trigger] vstd::string::to_string_from_display_ensures::<
                    plan::Error,
                >(&err, cause),
        }
    }

    /// The message of the error, which is the one of the error it carries.
    pub fn message(&self) -> (text: String)
        ensures
            self.reads(text@),
    {
        match self {
            RequestError::Addon(err) => err.to_string(),
            RequestError::Plan(err) => err.to_string(),
        }
    }
}

// -----------------------------------------------------------------------------
// CreateAddonOpts structure

/// Options of an addon.
#[derive(PartialEq, Eq, Debug)]
pub struct AddonOpts {
    pub version: Option<String>,
    pub encryption: Option<String>,
}

/// What is sent to the api to create an addon.
#[derive(PartialEq, Eq, Debug)]
pub struct CreateAddonOpts {
    pub name: String,
    pub region: String,
    pub provider_id: String,
    pub plan: String,
    pub options: AddonOpts,
}

/// The options that `clevercloud_sdk::v2::addon::AddonOpts::default` gives.
/// Its `Default` is derived on optional fields, so that neither a version nor
/// an encryption is chosen.
#[verifier::external_body]
pub(crate) fn default_addon_opts() -> (options: AddonOpts)
    ensures
        options.version is None,
        options.encryption is None,
{
    let options = v2::addon::AddonOpts::default();
    AddonOpts { version: options.version, encryption: options.encryption }
}

/// The identifier of the Pulsar addon provider, which is what
/// `clevercloud_sdk::v4::addon_provider::AddonProviderId::Pulsar` displays:
/// the text `addon-pulsar`.
#[verifier::external_body]
pub(crate) fn pulsar_provider_id() -> (id: String)
    ensures
        id@ == "addon-pulsar"@,
{
    AddonProviderId::Pulsar.to_string()
}

} // verus!
