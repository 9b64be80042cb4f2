//! # Upsert
//!
//! How the addon of a pulsar custom resource is created or updated. The
//! reconciliation is a chain of stages: a stage tells which request comes next,
//! and the reply to it leads to the next stage.

use crate::svc::crd::pulsar::exchange::{Reply, ReplyView, Request, RequestView, Secrets};
use crate::svc::crd::pulsar::{
    Pulsar, PulsarAction, PulsarView, ReconcilerError, ADDON_FINALIZER,
};
use crate::svc::k8s::finalizer;
use vstd::prelude::*;

verus! {

// -----------------------------------------------------------------------------
// Messages

/// The message of the event on a finalizer that was set.
pub open spec fn finalizer_message() -> Seq<char> {
    "Create finalizer '"@ + ADDON_FINALIZER@ + "'"@
}

/// The message of the event on an addon that was created.
pub open spec fn addon_message(id: Seq<char>) -> Seq<char> {
    "Create managed pulsar instance on clever-cloud '"@ + id + "'"@
}

/// The message of the event on a secret that was created.
pub open spec fn secret_message(name: Seq<char>) -> Seq<char> {
    "Create kubernetes secret '"@ + name + "'"@
}

// -----------------------------------------------------------------------------
// Upsert enum

/// The stages of the creation or the update of a resource.
#[derive(Debug)]
pub enum Upsert<P, T, S> {
    FinalizerDiff { origin: P, modified: P },
    FinalizerPatch { origin: P, modified: P, patch: T },
    FinalizerRecord { origin: P, modified: P },
    AddonUpsert { origin: P, modified: P },
    AddonDiff { origin: P, modified: P, addon: T },
    AddonPatch { modified: P, patch: T, addon: T },
    AddonPatchStatus { modified: P, patch: T, addon: T },
    AddonRecord { modified: P, addon: T },
    SecretsRead { modified: P },
    SecretUpsert { modified: P, secrets: S },
    SecretRecord { modified: P, secret: T },
    Finished(Result<(), ReconcilerError>),
}

impl<P: View, T: View, S: View> View for Upsert<P, T, S> {
    type V = Upsert<P::V, T::V, S::V>;

    open spec fn view(&self) -> Upsert<P::V, T::V, S::V> {
        match self {
            Upsert::FinalizerDiff { origin, modified } => Upsert::FinalizerDiff {
                origin: origin@,
                modified: modified@,
            },
            Upsert::FinalizerPatch { origin, modified, patch } => Upsert::FinalizerPatch {
                origin: origin@,
                modified: modified@,
                patch: patch@,
            },
            Upsert::FinalizerRecord { origin, modified } => Upsert::FinalizerRecord {
                origin: origin@,
                modified: modified@,
            },
            Upsert::AddonUpsert { origin, modified } => Upsert::AddonUpsert {
                origin: origin@,
                modified: modified@,
            },
            Upsert::AddonDiff { origin, modified, addon } => Upsert::AddonDiff {
                origin: origin@,
                modified: modified@,
                addon: addon@,
            },
            Upsert::AddonPatch { modified, patch, addon } => Upsert::AddonPatch {
                modified: modified@,
                patch: patch@,
                addon: addon@,
            },
            Upsert::AddonPatchStatus { modified, patch, addon } => Upsert::AddonPatchStatus {
                modified: modified@,
                patch: patch@,
                addon: addon@,
            },
            Upsert::AddonRecord { modified, addon } => Upsert::AddonRecord {
                modified: modified@,
                addon: addon@,
            },
            Upsert::SecretsRead { modified } => Upsert::SecretsRead { modified: modified@ },
            Upsert::SecretUpsert { modified, secrets } => Upsert::SecretUpsert {
                modified: modified@,
                secrets: secrets@,
            },
            Upsert::SecretRecord { modified, secret } => Upsert::SecretRecord {
                modified: modified@,
                secret: secret@,
            },
            Upsert::Finished(result) => Upsert::Finished(*result),
        }
    }
}

/// The model of the stages of an upsert.
pub type UpsertView = Upsert<PulsarView, Seq<char>, Seq<(String, String)>>;

impl Upsert<PulsarView, Seq<char>, Seq<(String, String)>> {
    /// The first stage: the finalizer goes on the resource before anything
    /// else happens.
    pub open spec fn start(origin: PulsarView) -> UpsertView {
        Upsert::FinalizerDiff { origin, modified: origin.protected() }
    }

    /// The request that the stage waits on, none once it is finished.
    pub open spec fn request(self) -> Option<RequestView> {
        match self {
            Upsert::FinalizerDiff { origin, modified } => Some(Request::Diff { origin, modified }),
            Upsert::FinalizerPatch { modified, patch, .. } => Some(
                Request::Patch { object: modified, patch },
            ),
            Upsert::FinalizerRecord { modified, .. } => Some(
                Request::Record {
                    object: modified,
                    action: PulsarAction::UpsertFinalizer,
                    message: finalizer_message(),
                },
            ),
            Upsert::AddonUpsert { modified, .. } => Some(
                Request::UpsertAddon { object: modified },
            ),
            Upsert::AddonDiff { origin, modified, .. } => Some(
                Request::Diff { origin, modified },
            ),
            Upsert::AddonPatch { modified, patch, .. } => Some(
                Request::Patch { object: modified, patch },
            ),
            Upsert::AddonPatchStatus { modified, patch, .. } => Some(
                Request::PatchStatus { object: modified, patch },
            ),
            Upsert::AddonRecord { modified, addon } => Some(
                Request::Record {
                    object: modified,
                    action: PulsarAction::UpsertAddon,
                    message: addon_message(addon),
                },
            ),
            Upsert::SecretsRead { modified } => Some(Request::ReadSecrets { object: modified }),
            Upsert::SecretUpsert { modified, secrets } => Some(
                Request::UpsertSecret { owner: modified, secrets },
            ),
            Upsert::SecretRecord { modified, secret } => Some(
                Request::Record {
                    object: modified,
                    action: PulsarAction::UpsertSecret,
                    message: secret_message(secret),
                },
            ),
            Upsert::Finished(_) => None,
        }
    }

    /// Whether `reply` answers the request that the stage waits on.
    pub open spec fn accepts(self, reply: ReplyView) -> bool {
        match self.request() {
            Some(request) => request.answered_by(reply),
            None => false,
        }
    }

    /// The stage that follows a request that was met.
    pub open spec fn proceed(self, reply: ReplyView) -> UpsertView {
        match (self, reply) {
            (Upsert::FinalizerDiff { origin, modified }, Reply::Diffed(Ok(patch))) => {
                Upsert::FinalizerPatch { origin, modified, patch }
            },
            (Upsert::FinalizerPatch { origin, .. }, Reply::Patched(Ok(modified))) => {
                Upsert::FinalizerRecord { origin, modified }
            },
            (Upsert::FinalizerRecord { origin, modified }, _) => {
                Upsert::AddonUpsert { origin, modified }
            },
            (Upsert::AddonUpsert { origin, modified }, Reply::AddonUpserted(Ok(addon))) => {
                Upsert::AddonDiff { origin, modified: modified.with_addon(Some(addon)), addon }
            },
            (Upsert::AddonDiff { modified, addon, .. }, Reply::Diffed(Ok(patch))) => {
                Upsert::AddonPatch { modified, patch, addon }
            },
            (Upsert::AddonPatch { patch, addon, .. }, Reply::Patched(Ok(modified))) => {
                Upsert::AddonPatchStatus { modified, patch, addon }
            },
            (Upsert::AddonPatchStatus { addon, .. }, Reply::Patched(Ok(modified))) => {
                Upsert::AddonRecord { modified, addon }
            },
            (Upsert::AddonRecord { modified, .. }, _) => Upsert::SecretsRead { modified },
            (Upsert::SecretsRead { modified }, Reply::SecretsRead(Ok(Some(secrets)))) => {
                Upsert::SecretUpsert { modified, secrets }
            },
            (Upsert::SecretUpsert { modified, .. }, Reply::SecretUpserted(Ok(secret))) => {
                Upsert::SecretRecord { modified, secret }
            },
            _ => Upsert::Finished(Ok(())),
        }
    }

    /// The stage that follows the reply: a failure ends the reconciliation.
    pub open spec fn after(self, reply: ReplyView) -> UpsertView {
        match reply.failure() {
            Some(err) => Upsert::Finished(Err(err)),
            None => self.proceed(reply),
        }
    }

    /// The stage that a series of replies leads to.
    pub open spec fn run(self, replies: Seq<ReplyView>) -> UpsertView
        decreases replies.len(),
    {
        if replies.len() == 0 {
            self
        } else {
            self.run(replies.drop_last()).after(replies.last())
        }
    }

    /// Whether each of the replies answers the request that is waited on when
    /// it comes.
    pub open spec fn accepts_all(self, replies: Seq<ReplyView>) -> bool
        decreases replies.len(),
    {
        replies.len() > 0 ==> {
            &&& self.accepts_all(replies.drop_last())
            &&& self.run(replies.drop_last()).accepts(replies.last())
        }
    }
}

impl Upsert<Pulsar, String, Secrets> {
    /// The first stage of the upsert of a resource.
    pub(crate) fn new(origin: &Pulsar) -> (stage: Self)
        ensures
            stage@ == UpsertView::start(origin@),
    {
        let modified = origin.clone();
        Upsert::FinalizerDiff {
            origin: origin.clone(),
            modified: Pulsar {
                metadata: finalizer::add(modified.metadata, ADDON_FINALIZER),
                spec: modified.spec,
                status: modified.status,
            },
        }
    }

    /// The request that the stage waits on, none once it is finished.
    pub fn request(&self) -> (request: Option<Request<&Pulsar, String, &Secrets>>)
        ensures
            match request {
                Some(request) => self@.request() == Some(request@),
                None => self@.request() is None,
            },
    {
        match self {
            Upsert::FinalizerDiff { origin, modified } => Some(Request::Diff { origin, modified }),
            Upsert::FinalizerPatch { modified, patch, .. } => Some(
                Request::Patch { object: modified, patch: patch.clone() },
            ),
            Upsert::FinalizerRecord { modified, .. } => Some(
                Request::Record {
                    object: modified,
                    action: PulsarAction::UpsertFinalizer,
                    message: "Create finalizer '".to_owned().concat(ADDON_FINALIZER).concat("'"),
                },
            ),
            Upsert::AddonUpsert { modified, .. } => Some(
                Request::UpsertAddon { object: modified },
            ),
            Upsert::AddonDiff { origin, modified, .. } => Some(
                Request::Diff { origin, modified },
            ),
            Upsert::AddonPatch { modified, patch, .. } => Some(
                Request::Patch { object: modified, patch: patch.clone() },
            ),
            Upsert::AddonPatchStatus { modified, patch, .. } => Some(
                Request::PatchStatus { object: modified, patch: patch.clone() },
            ),
            Upsert::AddonRecord { modified, addon } => Some(
                Request::Record {
                    object: modified,
                    action: PulsarAction::UpsertAddon,
                    message: "Create managed pulsar instance on clever-cloud '".to_owned().concat(
                        addon.as_str(),
                    ).concat("'"),
                },
            ),
            Upsert::SecretsRead { modified } => Some(Request::ReadSecrets { object: modified }),
            Upsert::SecretUpsert { modified, secrets } => Some(
                Request::UpsertSecret { owner: modified, secrets },
            ),
            Upsert::SecretRecord { modified, secret } => Some(
                Request::Record {
                    object: modified,
                    action: PulsarAction::UpsertSecret,
                    message: "Create kubernetes secret '".to_owned().concat(
                        secret.as_str(),
                    ).concat("'"),
                },
            ),
            Upsert::Finished(_) => None,
        }
    }

    /// Whether the reply answers the request that the stage waits on.
    pub fn accepts(&self, reply: &Reply<Pulsar, String, Secrets>) -> (accepted: bool)
        ensures
            accepted == self@.accepts(reply@),
            accepted <==> match *self {
                Upsert::FinalizerDiff { .. } => reply is Diffed,
                Upsert::FinalizerPatch { .. } => reply is Patched,
                Upsert::FinalizerRecord { .. } => reply is Recorded,
                Upsert::AddonUpsert { .. } => reply is AddonUpserted,
                Upsert::AddonDiff { .. } => reply is Diffed,
                Upsert::AddonPatch { .. } => reply is Patched,
                Upsert::AddonPatchStatus { .. } => reply is Patched,
                Upsert::AddonRecord { .. } => reply is Recorded,
                Upsert::SecretsRead { .. } => reply is SecretsRead,
                Upsert::SecretUpsert { .. } => reply is SecretUpserted,
                Upsert::SecretRecord { .. } => reply is Recorded,
                Upsert::Finished(_) => false,
            },
    {
        match self.request() {
            Some(request) => request.is_answered_by(reply),
            None => false,
        }
    }

    /// The stage that follows the reply.
    pub fn advance(self, reply: Reply<Pulsar, String, Secrets>) -> (next: Self)
        requires
            self@.accepts(reply@),
        ensures
            next@ == self@.after(reply@),
    {
        let reply = match reply.succeeded() {
            Ok(reply) => reply,
            Err(err) => return Upsert::Finished(Err(err)),
        };
        match (self, reply) {
            (Upsert::FinalizerDiff { origin, modified }, Reply::Diffed(Ok(patch))) => {
                Upsert::FinalizerPatch { origin, modified, patch }
            },
            (Upsert::FinalizerPatch { origin, .. }, Reply::Patched(Ok(modified))) => {
                Upsert::FinalizerRecord { origin, modified }
            },
            (Upsert::FinalizerRecord { origin, modified }, _) => {
                Upsert::AddonUpsert { origin, modified }
            },
            (
                Upsert::AddonUpsert { origin, mut modified },
                Reply::AddonUpserted(Ok(addon)),
            ) => {
                modified.set_addon_id(Some(addon.clone()));
                Upsert::AddonDiff { origin, modified, addon }
            },
            (Upsert::AddonDiff { modified, addon, .. }, Reply::Diffed(Ok(patch))) => {
                Upsert::AddonPatch { modified, patch, addon }
            },
            (Upsert::AddonPatch { patch, addon, .. }, Reply::Patched(Ok(modified))) => {
                Upsert::AddonPatchStatus { modified, patch, addon }
            },
            (Upsert::AddonPatchStatus { addon, .. }, Reply::Patched(Ok(modified))) => {
                Upsert::AddonRecord { modified, addon }
            },
            (Upsert::AddonRecord { modified, .. }, _) => Upsert::SecretsRead { modified },
            (Upsert::SecretsRead { modified }, Reply::SecretsRead(Ok(Some(secrets)))) => {
                Upsert::SecretUpsert { modified, secrets }
            },
            (Upsert::SecretUpsert { modified, .. }, Reply::SecretUpserted(Ok(secret))) => {
                Upsert::SecretRecord { modified, secret }
            },
            _ => Upsert::Finished(Ok(())),
        }
    }
}

} // verus!
