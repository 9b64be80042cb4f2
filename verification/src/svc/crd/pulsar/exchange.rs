//! # Requests and replies
//!
//! What the reconciliation of a pulsar custom resource asks for, and what
//! comes of it.

use crate::svc::crd::pulsar::{Pulsar, PulsarAction, PulsarView, ReconcilerError};
use vstd::prelude::*;

verus! {

// -----------------------------------------------------------------------------
// Request enum

/// The names and the values of the environment that an addon gives.
pub type Secrets = Vec<(String, String)>;

/// What a reconciliation asks for. The resources are of type `P`, the texts of
/// type `T` and the secrets of type `S`.
#[derive(PartialEq, Debug)]
pub enum Request<P, T, S> {
    /// Compute the patch that leads from `origin` to `modified`.
    Diff { origin: P, modified: P },
    /// Apply the patch to the resource.
    Patch { object: P, patch: T },
    /// Apply the patch to the status of the resource.
    PatchStatus { object: P, patch: T },
    /// Publish an event on the resource.
    Record { object: P, action: PulsarAction, message: T },
    /// Create the addon of the resource, or find it.
    UpsertAddon { object: P },
    /// Delete the addon of the resource.
    DeleteAddon { object: P },
    /// Read the secrets of the addon of the resource.
    ReadSecrets { object: P },
    /// Write the secrets in a secret that the resource owns.
    UpsertSecret { owner: P, secrets: S },
}

impl<P: View, T: View, S: View> View for Request<P, T, S> {
    type V = Request<P::V, T::V, S::V>;

    open spec fn view(&self) -> Request<P::V, T::V, S::V> {
        match self {
            Request::Diff { origin, modified } => Request::Diff {
                origin: origin@,
                modified: modified@,
            },
            Request::Patch { object, patch } => Request::Patch { object: object@, patch: patch@ },
            Request::PatchStatus { object, patch } => Request::PatchStatus {
                object: object@,
                patch: patch@,
            },
            Request::Record { object, action, message } => Request::Record {
                object: object@,
                action: *action,
                message: message@,
            },
            Request::UpsertAddon { object } => Request::UpsertAddon { object: object@ },
            Request::DeleteAddon { object } => Request::DeleteAddon { object: object@ },
            Request::ReadSecrets { object } => Request::ReadSecrets { object: object@ },
            Request::UpsertSecret { owner, secrets } => Request::UpsertSecret {
                owner: owner@,
                secrets: secrets@,
            },
        }
    }
}

/// The model of a request.
pub type RequestView = Request<PulsarView, Seq<char>, Seq<(String, String)>>;

impl<P, T, S> Request<P, T, S> {
    /// Whether `reply` is of the kind that answers the request.
    pub open spec fn answered_by(self, reply: Reply<P, T, S>) -> bool {
        match self {
            Request::Diff { .. } => reply is Diffed,
            Request::Patch { .. } => reply is Patched,
            Request::PatchStatus { .. } => reply is Patched,
            Request::Record { .. } => reply is Recorded,
            Request::UpsertAddon { .. } => reply is AddonUpserted,
            Request::DeleteAddon { .. } => reply is AddonDeleted,
            Request::ReadSecrets { .. } => reply is SecretsRead,
            Request::UpsertSecret { .. } => reply is SecretUpserted,
        }
    }
}

impl Request<&Pulsar, String, &Secrets> {
    /// Whether the reply is of the kind that answers the request.
    pub fn is_answered_by(&self, reply: &Reply<Pulsar, String, Secrets>) -> (answered: bool)
        ensures
            answered == self@.answered_by(reply@),
            answered <==> match *self {
                Request::Diff { .. } => reply is Diffed,
                Request::Patch { .. } => reply is Patched,
                Request::PatchStatus { .. } => reply is Patched,
                Request::Record { .. } => reply is Recorded,
                Request::UpsertAddon { .. } => reply is AddonUpserted,
                Request::DeleteAddon { .. } => reply is AddonDeleted,
                Request::ReadSecrets { .. } => reply is SecretsRead,
                Request::UpsertSecret { .. } => reply is SecretUpserted,
            },
    {
        match (self, reply) {
            (Request::Diff { .. }, Reply::Diffed(_)) => true,
            (Request::Patch { .. }, Reply::Patched(_)) => true,
            (Request::PatchStatus { .. }, Reply::Patched(_)) => true,
            (Request::Record { .. }, Reply::Recorded(_)) => true,
            (Request::UpsertAddon { .. }, Reply::AddonUpserted(_)) => true,
            (Request::DeleteAddon { .. }, Reply::AddonDeleted(_)) => true,
            (Request::ReadSecrets { .. }, Reply::SecretsRead(_)) => true,
            (Request::UpsertSecret { .. }, Reply::SecretUpserted(_)) => true,
            _ => false,
        }
    }
}

// -----------------------------------------------------------------------------
// Reply enum

/// What came of a request.
#[derive(Debug)]
pub enum Reply<P, T, S> {
    /// The patch, as json.
    Diffed(Result<T, serde_json::Error>),
    /// The resource, or its status, as it is once patched.
    Patched(Result<P, kube::Error>),
    /// The event is published.
    Recorded(Result<(), kube::Error>),
    /// The identifier of the addon.
    AddonUpserted(Result<T, ReconcilerError>),
    /// The addon is gone.
    AddonDeleted(Result<(), ReconcilerError>),
    /// The secrets of the addon, if it gives any.
    SecretsRead(Result<Option<S>, ReconcilerError>),
    /// The name of the secret.
    SecretUpserted(Result<T, kube::Error>),
}

/// `result` with the model of its value in place of the value.
pub open spec fn result_view<A: View, E>(result: Result<A, E>) -> Result<A::V, E> {
    match result {
        Ok(value) => Ok(value@),
        Err(err) => Err(err),
    }
}

impl<P: View, T: View, S: View> View for Reply<P, T, S> {
    type V = Reply<P::V, T::V, S::V>;

    open spec fn view(&self) -> Reply<P::V, T::V, S::V> {
        match *self {
            Reply::Diffed(result) => Reply::Diffed(result_view(result)),
            Reply::Patched(result) => Reply::Patched(result_view(result)),
            Reply::Recorded(result) => Reply::Recorded(result),
            Reply::AddonUpserted(result) => Reply::AddonUpserted(result_view(result)),
            Reply::AddonDeleted(result) => Reply::AddonDeleted(result),
            Reply::SecretsRead(Ok(Some(secrets))) => Reply::SecretsRead(Ok(Some(secrets@))),
            Reply::SecretsRead(Ok(None)) => Reply::SecretsRead(Ok(None)),
            Reply::SecretsRead(Err(err)) => Reply::SecretsRead(Err(err)),
            Reply::SecretUpserted(result) => Reply::SecretUpserted(result_view(result)),
        }
    }
}

/// The model of a reply.
pub type ReplyView = Reply<PulsarView, Seq<char>, Seq<(String, String)>>;

impl<P, T, S> Reply<P, T, S> {
    /// The error that a failed request ends the reconciliation with.
    pub open spec fn failure(self) -> Option<ReconcilerError> {
        match self {
            Reply::Diffed(Err(err)) => Some(ReconcilerError::Diff(err)),
            Reply::Patched(Err(err)) => Some(ReconcilerError::KubeClient(err)),
            Reply::Recorded(Err(err)) => Some(ReconcilerError::KubeClient(err)),
            Reply::AddonUpserted(Err(err)) => Some(err),
            Reply::AddonDeleted(Err(err)) => Some(err),
            Reply::SecretsRead(Err(err)) => Some(err),
            Reply::SecretUpserted(Err(err)) => Some(ReconcilerError::KubeClient(err)),
            _ => None,
        }
    }

    /// Parts the replies to requests that were met from the errors.
    pub(crate) fn succeeded(self) -> (outcome: Result<Self, ReconcilerError>)
        ensures
            match outcome {
                Ok(reply) => reply == self && self.failure() is None,
                Err(err) => self.failure() == Some(err),
            },
    {
        match self {
            Reply::Diffed(Err(err)) => Err(ReconcilerError::Diff(err)),
            Reply::Patched(Err(err)) => Err(ReconcilerError::from(err)),
            Reply::Recorded(Err(err)) => Err(ReconcilerError::from(err)),
            Reply::AddonUpserted(Err(err)) => Err(err),
            Reply::AddonDeleted(Err(err)) => Err(err),
            Reply::SecretsRead(Err(err)) => Err(err),
            Reply::SecretUpserted(Err(err)) => Err(ReconcilerError::from(err)),
            reply => Ok(reply),
        }
    }
}

} // verus!
