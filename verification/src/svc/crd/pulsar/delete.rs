//! # Delete
//!
//! How the addon of a pulsar custom resource is deleted, and the resource
//! released. As for the upsert, the reconciliation is a chain of stages.

use crate::svc::crd::pulsar::exchange::{Reply, ReplyView, Request, RequestView, Secrets};
use crate::svc::crd::pulsar::{
    Pulsar, PulsarAction, PulsarView, ReconcilerError, ADDON_FINALIZER,
};
use crate::svc::k8s::finalizer;
use vstd::prelude::*;

verus! {

/// The stages of the deletion of a resource.
#[derive(Debug)]
pub enum Delete<P, T> {
    AddonDelete { origin: P, modified: P },
    AddonDiff { origin: P, modified: P },
    AddonPatch { origin: P, modified: P, patch: T },
    AddonPatchStatus { origin: P, modified: P, patch: T },
    AddonRecord { origin: P, modified: P },
    FinalizerRecord { origin: P, modified: P },
    FinalizerDiff { origin: P, modified: P },
    FinalizerPatch { modified: P, patch: T },
    Finished(Result<(), ReconcilerError>),
}

impl<P: View, T: View> View for Delete<P, T> {
    type V = Delete<P::V, T::V>;

    open spec fn view(&self) -> Delete<P::V, T::V> {
        match self {
            Delete::AddonDelete { origin, modified } => Delete::AddonDelete {
                origin: origin@,
                modified: modified@,
            },
            Delete::AddonDiff { origin, modified } => Delete::AddonDiff {
                origin: origin@,
                modified: modified@,
            },
            Delete::AddonPatch { origin, modified, patch } => Delete::AddonPatch {
                origin: origin@,
                modified: modified@,
                patch: patch@,
            },
            Delete::AddonPatchStatus { origin, modified, patch } => Delete::AddonPatchStatus {
                origin: origin@,
                modified: modified@,
                patch: patch@,
            },
            Delete::AddonRecord { origin, modified } => Delete::AddonRecord {
                origin: origin@,
                modified: modified@,
            },
            Delete::FinalizerRecord { origin, modified } => Delete::FinalizerRecord {
                origin: origin@,
                modified: modified@,
            },
            Delete::FinalizerDiff { origin, modified } => Delete::FinalizerDiff {
                origin: origin@,
                modified: modified@,
            },
            Delete::FinalizerPatch { modified, patch } => Delete::FinalizerPatch {
                modified: modified@,
                patch: patch@,
            },
            Delete::Finished(result) => Delete::Finished(*result),
        }
    }
}

/// The model of the stages of a deletion.
pub type DeleteView = Delete<PulsarView, Seq<char>>;

impl Delete<PulsarView, Seq<char>> {
    /// The first stage: the addon goes before the resource is touched.
    pub open spec fn start(origin: PulsarView) -> DeleteView {
        Delete::AddonDelete { origin, modified: origin }
    }

    /// The request that the stage waits on, none once it is finished.
    pub open spec fn request(self) -> Option<RequestView> {
        match self {
            Delete::AddonDelete { modified, .. } => Some(
                Request::DeleteAddon { object: modified },
            ),
            Delete::AddonDiff { origin, modified } => Some(Request::Diff { origin, modified }),
            Delete::AddonPatch { modified, patch, .. } => Some(
                Request::Patch { object: modified, patch },
            ),
            Delete::AddonPatchStatus { modified, patch, .. } => Some(
                Request::PatchStatus { object: modified, patch },
            ),
            Delete::AddonRecord { modified, .. } => Some(
                Request::Record {
                    object: modified,
                    action: PulsarAction::DeleteAddon,
                    message: "Delete managed pulsar instance on clever-cloud"@,
                },
            ),
            Delete::FinalizerRecord { modified, .. } => Some(
                Request::Record {
                    object: modified,
                    action: PulsarAction::DeleteFinalizer,
                    message: "Delete finalizer from custom resource"@,
                },
            ),
            Delete::FinalizerDiff { origin, modified } => Some(
                Request::Diff { origin, modified },
            ),
            Delete::FinalizerPatch { modified, patch } => Some(
                Request::Patch { object: modified, patch },
            ),
            Delete::Finished(_) => None,
        }
    }

    /// Whether `reply` answers the request that the stage waits on.
    pub open spec fn accepts(self, reply: ReplyView) -> bool {
        match self.request() {
            Some(request) => request.answered_by(reply),
            None => false,
        }
    }

    /// The stage that follows a request that was met.
    pub open spec fn proceed(self, reply: ReplyView) -> DeleteView {
        match (self, reply) {
            (Delete::AddonDelete { origin, modified }, _) => {
                Delete::AddonDiff { origin, modified: modified.with_addon(None) }
            },
            (Delete::AddonDiff { origin, modified }, Reply::Diffed(Ok(patch))) => {
                Delete::AddonPatch { origin, modified, patch }
            },
            (Delete::AddonPatch { origin, patch, .. }, Reply::Patched(Ok(modified))) => {
                Delete::AddonPatchStatus { origin, modified, patch }
            },
            (Delete::AddonPatchStatus { origin, .. }, Reply::Patched(Ok(modified))) => {
                Delete::AddonRecord { origin, modified }
            },
            (Delete::AddonRecord { origin, modified }, _) => {
                Delete::FinalizerRecord { origin, modified: modified.released() }
            },
            (Delete::FinalizerRecord { origin, modified }, _) => {
                Delete::FinalizerDiff { origin, modified }
            },
            (Delete::FinalizerDiff { modified, .. }, Reply::Diffed(Ok(patch))) => {
                Delete::FinalizerPatch { modified, patch }
            },
            _ => Delete::Finished(Ok(())),
        }
    }

    /// The stage that follows the reply: a failure ends the reconciliation.
    pub open spec fn after(self, reply: ReplyView) -> DeleteView {
        match reply.failure() {
            Some(err) => Delete::Finished(Err(err)),
            None => self.proceed(reply),
        }
    }

    /// The stage that a series of replies leads to.
    pub open spec fn run(self, replies: Seq<ReplyView>) -> DeleteView
        decreases replies.len(),
    {
        if replies.len() == 0 {
            self
        } else {
            self.run(replies.drop_last()).after(replies.last())
        }
    }

    /// Whether each of the replies answers the request that is waited on when
    /// it comes.
    pub open spec fn accepts_all(self, replies: Seq<ReplyView>) -> bool
        decreases replies.len(),
    {
        replies.len() > 0 ==> {
            &&& self.accepts_all(replies.drop_last())
            &&& self.run(replies.drop_last()).accepts(replies.last())
        }
    }
}

impl Delete<Pulsar, String> {
    /// The first stage of the deletion of a resource.
    pub(crate) fn new(origin: &Pulsar) -> (stage: Self)
        ensures
            stage@ == DeleteView::start(origin@),
    {
        Delete::AddonDelete { origin: origin.clone(), modified: origin.clone() }
    }

    /// The request that the stage waits on, none once it is finished.
    pub fn request(&self) -> (request: Option<Request<&Pulsar, String, &Secrets>>)
        ensures
            match request {
                Some(request) => self@.request() == Some(request@),
                None => self@.request() is None,
            },
    {
        match self {
            Delete::AddonDelete { modified, .. } => Some(
                Request::DeleteAddon { object: modified },
            ),
            Delete::AddonDiff { origin, modified } => Some(Request::Diff { origin, modified }),
            Delete::AddonPatch { modified, patch, .. } => Some(
                Request::Patch { object: modified, patch: patch.clone() },
            ),
            Delete::AddonPatchStatus { modified, patch, .. } => Some(
                Request::PatchStatus { object: modified, patch: patch.clone() },
            ),
            Delete::AddonRecord { modified, .. } => Some(
                Request::Record {
                    object: modified,
                    action: PulsarAction::DeleteAddon,
                    message: "Delete managed pulsar instance on clever-cloud".to_owned(),
                },
            ),
            Delete::FinalizerRecord { modified, .. } => Some(
                Request::Record {
                    object: modified,
                    action: PulsarAction::DeleteFinalizer,
                    message: "Delete finalizer from custom resource".to_owned(),
                },
            ),
            Delete::FinalizerDiff { origin, modified } => Some(
                Request::Diff { origin, modified },
            ),
            Delete::FinalizerPatch { modified, patch } => Some(
                Request::Patch { object: modified, patch: patch.clone() },
            ),
            Delete::Finished(_) => None,
        }
    }

    /// Whether the reply answers the request that the stage waits on.
    pub fn accepts(&self, reply: &Reply<Pulsar, String, Secrets>) -> (accepted: bool)
        ensures
            accepted == self@.accepts(reply@),
            accepted <==> match *self {
                Delete::AddonDelete { .. } => reply is AddonDeleted,
                Delete::AddonDiff { .. } => reply is Diffed,
                Delete::AddonPatch { .. } => reply is Patched,
                Delete::AddonPatchStatus { .. } => reply is Patched,
                Delete::AddonRecord { .. } => reply is Recorded,
                Delete::FinalizerRecord { .. } => reply is Recorded,
                Delete::FinalizerDiff { .. } => reply is Diffed,
                Delete::FinalizerPatch { .. } => reply is Patched,
                Delete::Finished(_) => false,
            },
    {
        match self.request() {
            Some(request) => request.is_answered_by(reply),
            None => false,
        }
    }

    /// The stage that follows the reply.
    pub fn advance(self, reply: Reply<Pulsar, String, Secrets>) -> (next: Self)
        requires
            self@.accepts(reply@),
        ensures
            next@ == self@.after(reply@),
    {
        let reply = match reply.succeeded() {
            Ok(reply) => reply,
            Err(err) => return Delete::Finished(Err(err)),
        };
        match (self, reply) {
            (Delete::AddonDelete { origin, mut modified }, _) => {
                modified.set_addon_id(None);
                Delete::AddonDiff { origin, modified }
            },
            (Delete::AddonDiff { origin, modified }, Reply::Diffed(Ok(patch))) => {
                Delete::AddonPatch { origin, modified, patch }
            },
            (Delete::AddonPatch { origin, patch, .. }, Reply::Patched(Ok(modified))) => {
                Delete::AddonPatchStatus { origin, modified, patch }
            },
            (Delete::AddonPatchStatus { origin, .. }, Reply::Patched(Ok(modified))) => {
                Delete::AddonRecord { origin, modified }
            },
            (Delete::AddonRecord { origin, modified }, _) => {
                Delete::FinalizerRecord {
                    origin,
                    modified: Pulsar {
                        metadata: finalizer::remove(modified.metadata, ADDON_FINALIZER),
                        spec: modified.spec,
                        status: modified.status,
                    },
                }
            },
            (Delete::FinalizerRecord { origin, modified }, _) => {
                Delete::FinalizerDiff { origin, modified }
            },
            (Delete::FinalizerDiff { modified, .. }, Reply::Diffed(Ok(patch))) => {
                Delete::FinalizerPatch { modified, patch }
            },
            _ => Delete::Finished(Ok(())),
        }
    }
}

} // verus!
