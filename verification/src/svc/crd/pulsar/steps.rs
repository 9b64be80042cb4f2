//! # Steps of the reconciliation
//!
//! What a reconciliation asks for step by step, which replies each step takes,
//! what a failure does to it, and what the models of its parts hold.

use crate::svc::clevercloud::RequestError;
use crate::svc::crd::pulsar::delete::{Delete, DeleteView};
use crate::svc::crd::pulsar::exchange::{Reply, ReplyView, Request, RequestView, Secrets};
use crate::svc::crd::pulsar::upsert::{Upsert, UpsertView};
use crate::svc::crd::pulsar::{Pulsar, PulsarAction, PulsarView, ReconcilerError};
use crate::svc::k8s::ObjectMetaView;
use vstd::prelude::*;

verus! {

// -----------------------------------------------------------------------------
// Progress

/// A request is answered by every reply of its kind, whatever the reply
/// carries, and by no other.
pub proof fn law_request_answered<P, T, S>(request: Request<P, T, S>, reply: Reply<P, T, S>)
    ensures
        request is Diff ==> (request.answered_by(reply) <==> reply is Diffed),
        request is Patch ==> (request.answered_by(reply) <==> reply is Patched),
        request is PatchStatus ==> (request.answered_by(reply) <==> reply is Patched),
        request is Record ==> (request.answered_by(reply) <==> reply is Recorded),
        request is UpsertAddon ==> (request.answered_by(reply) <==> reply is AddonUpserted),
        request is DeleteAddon ==> (request.answered_by(reply) <==> reply is AddonDeleted),
        request is ReadSecrets ==> (request.answered_by(reply) <==> reply is SecretsRead),
        request is UpsertSecret ==> (request.answered_by(reply) <==> reply is SecretUpserted),
{
}

/// An upsert that waits on a request takes every reply of the kind that answers
/// it, whatever the reply carries, and no other; one that waits on none takes
/// no reply.
pub proof fn law_upsert_progress(stage: UpsertView, reply: ReplyView)
    ensures
        stage.request() is None ==> !stage.accepts(reply),
        stage.request() matches Some(request) ==> (stage.accepts(reply) <==> {
            ||| request is Diff && reply is Diffed
            ||| request is Patch && reply is Patched
            ||| request is PatchStatus && reply is Patched
            ||| request is Record && reply is Recorded
            ||| request is UpsertAddon && reply is AddonUpserted
            ||| request is DeleteAddon && reply is AddonDeleted
            ||| request is ReadSecrets && reply is SecretsRead
            ||| request is UpsertSecret && reply is SecretUpserted
        }),
        stage.request() is None <==> stage is Finished,
{
}

/// A deletion that waits on a request takes every reply of the kind that
/// answers it, whatever the reply carries, and no other; one that waits on none
/// takes no reply.
pub proof fn law_delete_progress(stage: DeleteView, reply: ReplyView)
    ensures
        stage.request() is None ==> !stage.accepts(reply),
        stage.request() matches Some(request) ==> (stage.accepts(reply) <==> {
            ||| request is Diff && reply is Diffed
            ||| request is Patch && reply is Patched
            ||| request is PatchStatus && reply is Patched
            ||| request is Record && reply is Recorded
            ||| request is UpsertAddon && reply is AddonUpserted
            ||| request is DeleteAddon && reply is AddonDeleted
            ||| request is ReadSecrets && reply is SecretsRead
            ||| request is UpsertSecret && reply is SecretUpserted
        }),
        stage.request() is None <==> stage is Finished,
{
}

/// A series of replies goes on for as long as there is a request: it starts
/// empty, and any reply that answers the request that is waited on can be put
/// behind it.
pub proof fn law_upsert_series(stage: UpsertView, replies: Seq<ReplyView>, reply: ReplyView)
    ensures
        stage.run(seq![]) == stage,
        stage.accepts_all(seq![]),
        stage.run(replies.push(reply)) == stage.run(replies).after(reply),
        stage.accepts_all(replies.push(reply)) <==> stage.accepts_all(replies) && stage.run(
            replies,
        ).accepts(reply),
{
    assert(replies.push(reply).drop_last() =~= replies);
}

/// A series of replies goes on for as long as there is a request: it starts
/// empty, and any reply that answers the request that is waited on can be put
/// behind it.
pub proof fn law_delete_series(stage: DeleteView, replies: Seq<ReplyView>, reply: ReplyView)
    ensures
        stage.run(seq![]) == stage,
        stage.accepts_all(seq![]),
        stage.run(replies.push(reply)) == stage.run(replies).after(reply),
        stage.accepts_all(replies.push(reply)) <==> stage.accepts_all(replies) && stage.run(
            replies,
        ).accepts(reply),
{
    assert(replies.push(reply).drop_last() =~= replies);
}

// -----------------------------------------------------------------------------
// Failures

/// A request that fails ends an upsert at once: with the error that its service
/// gave, or, for the cluster and for the patch, with the kind of failure around
/// it.
pub proof fn law_upsert_stops(
    stage: UpsertView,
    json: serde_json::Error,
    kube: kube::Error,
    other: ReconcilerError,
)
    ensures
        stage.after(Reply::Diffed(Err(json))) == UpsertView::Finished(
            Err(ReconcilerError::Diff(json)),
        ),
        stage.after(Reply::Patched(Err(kube))) == UpsertView::Finished(
            Err(ReconcilerError::KubeClient(kube)),
        ),
        stage.after(Reply::Recorded(Err(kube))) == UpsertView::Finished(
            Err(ReconcilerError::KubeClient(kube)),
        ),
        stage.after(Reply::SecretUpserted(Err(kube))) == UpsertView::Finished(
            Err(ReconcilerError::KubeClient(kube)),
        ),
        stage.after(Reply::AddonUpserted(Err(other))) == UpsertView::Finished(Err(other)),
        stage.after(Reply::AddonDeleted(Err(other))) == UpsertView::Finished(Err(other)),
        stage.after(Reply::SecretsRead(Err(other))) == UpsertView::Finished(Err(other)),
{
}

/// A request that fails ends a deletion at once: with the error that its
/// service gave, or, for the cluster and for the patch, with the kind of failure
/// around it.
pub proof fn law_delete_stops(
    stage: DeleteView,
    json: serde_json::Error,
    kube: kube::Error,
    other: ReconcilerError,
)
    ensures
        stage.after(Reply::Diffed(Err(json))) == DeleteView::Finished(
            Err(ReconcilerError::Diff(json)),
        ),
        stage.after(Reply::Patched(Err(kube))) == DeleteView::Finished(
            Err(ReconcilerError::KubeClient(kube)),
        ),
        stage.after(Reply::Recorded(Err(kube))) == DeleteView::Finished(
            Err(ReconcilerError::KubeClient(kube)),
        ),
        stage.after(Reply::SecretUpserted(Err(kube))) == DeleteView::Finished(
            Err(ReconcilerError::KubeClient(kube)),
        ),
        stage.after(Reply::AddonUpserted(Err(other))) == DeleteView::Finished(Err(other)),
        stage.after(Reply::AddonDeleted(Err(other))) == DeleteView::Finished(Err(other)),
        stage.after(Reply::SecretsRead(Err(other))) == DeleteView::Finished(Err(other)),
{
}

// -----------------------------------------------------------------------------
// Requests of an upsert

/// What an upsert asks for, whatever the cluster and the api answer as long as
/// nothing fails.
///
/// First comes the patch from the resource to the same resource with the
/// operator's finalizer, behind those that it has. Then the resource is always
/// the one that the cluster gave last. The addon is created for it, and the
/// identifier that the api gave is written in its status and nowhere else, with
/// one patch that is computed against the resource as it was at first. Where
/// there are secrets, all of them are written, as they were read.
pub proof fn law_upsert_steps(
    origin: PulsarView,
    protected: PulsarView,
    finalizer: Seq<char>,
    first_patch: Seq<char>,
    first: PulsarView,
    id: Seq<char>,
    patch: Seq<char>,
    patched: PulsarView,
    last: PulsarView,
    secrets: Seq<(String, String)>,
    secret: Seq<char>,
)
    requires
        finalizer == "api.clever-cloud.com/pulsar"@,
        protected == (PulsarView {
            metadata: ObjectMetaView {
                finalizers: match origin.metadata.finalizers {
                    None => Some(seq![finalizer]),
                    Some(there) => if there.contains(finalizer) {
                        Some(there)
                    } else {
                        Some(there + seq![finalizer])
                    },
                },
                ..origin.metadata
            },
            ..origin
        }),
    ensures
        ({
            let s0 = UpsertView::start(origin);
            let s1 = s0.after(Reply::Diffed(Ok(first_patch)));
            let s2 = s1.after(Reply::Patched(Ok(first)));
            let s3 = s2.after(Reply::Recorded(Ok(())));
            let s4 = s3.after(Reply::AddonUpserted(Ok(id)));
            let s5 = s4.after(Reply::Diffed(Ok(patch)));
            let s6 = s5.after(Reply::Patched(Ok(patched)));
            let s7 = s6.after(Reply::Patched(Ok(last)));
            let s8 = s7.after(Reply::Recorded(Ok(())));
            let bare = s8.after(Reply::SecretsRead(Ok(None)));
            let s9 = s8.after(Reply::SecretsRead(Ok(Some(secrets))));
            let s10 = s9.after(Reply::SecretUpserted(Ok(secret)));
            let s11 = s10.after(Reply::Recorded(Ok(())));
            let addressed = PulsarView { status: Some(Some(id)), ..first };
            &&& s0.request() == Some(RequestView::Diff { origin, modified: protected })
            &&& s1.request() == Some(RequestView::Patch { object: protected, patch: first_patch })
            &&& s2.request() == Some(
                RequestView::Record {
                    object: first,
                    action: PulsarAction::UpsertFinalizer,
                    message: "Create finalizer '"@ + finalizer + "'"@,
                },
            )
            &&& s3.request() == Some(RequestView::UpsertAddon { object: first })
            &&& s4.request() == Some(RequestView::Diff { origin, modified: addressed })
            &&& s5.request() == Some(RequestView::Patch { object: addressed, patch })
            &&& s6.request() == Some(RequestView::PatchStatus { object: patched, patch })
            &&& s7.request() == Some(
                RequestView::Record {
                    object: last,
                    action: PulsarAction::UpsertAddon,
                    message: "Create managed pulsar instance on clever-cloud '"@ + id + "'"@,
                },
            )
            &&& s8.request() == Some(RequestView::ReadSecrets { object: last })
            &&& bare == UpsertView::Finished(Ok(()))
            &&& s9.request() == Some(RequestView::UpsertSecret { owner: last, secrets })
            &&& s10.request() == Some(
                RequestView::Record {
                    object: last,
                    action: PulsarAction::UpsertSecret,
                    message: "Create kubernetes secret '"@ + secret + "'"@,
                },
            )
            &&& s11 == UpsertView::Finished(Ok(()))
        }),
{
    if let Some(there) = origin.metadata.finalizers {
        assert(there.push(finalizer) =~= there + seq![finalizer]);
    } else {
        assert(Seq::empty().push(finalizer) =~= seq![finalizer]);
    }
}

// -----------------------------------------------------------------------------
// Requests of a deletion

/// What a deletion asks for, whatever the cluster and the api answer as long as
/// nothing fails.
///
/// First the addon of the resource is deleted. The identifier, and nothing
/// else, is then taken from the status, with one patch that is computed against
/// the resource as it was at first. From there on the resource is the one that
/// the cluster gave last. The patch that comes last leads from the resource as
/// it was at first to that one without the operator's finalizer: it keeps every
/// other finalizer, in its order and wherever the operator's stood, and
/// everything else that it holds.
pub proof fn law_delete_steps(
    origin: PulsarView,
    finalizer: Seq<char>,
    patch: Seq<char>,
    patched: PulsarView,
    last: PulsarView,
    released: PulsarView,
    last_patch: Seq<char>,
    gone: PulsarView,
)
    requires
        finalizer == "api.clever-cloud.com/pulsar"@,
        released == (PulsarView {
            metadata: ObjectMetaView {
                finalizers: match last.metadata.finalizers {
                    None => None,
                    Some(there) => Some(there.filter(|other: Seq<char>| other != finalizer)),
                },
                ..last.metadata
            },
            ..last
        }),
    ensures
        ({
            let s0 = DeleteView::start(origin);
            let s1 = s0.after(Reply::AddonDeleted(Ok(())));
            let s2 = s1.after(Reply::Diffed(Ok(patch)));
            let s3 = s2.after(Reply::Patched(Ok(patched)));
            let s4 = s3.after(Reply::Patched(Ok(last)));
            let s5 = s4.after(Reply::Recorded(Ok(())));
            let s6 = s5.after(Reply::Recorded(Ok(())));
            let s7 = s6.after(Reply::Diffed(Ok(last_patch)));
            let s8 = s7.after(Reply::Patched(Ok(gone)));
            let cleared = PulsarView { status: Some(None), ..origin };
            &&& s0.request() == Some(RequestView::DeleteAddon { object: origin })
            &&& s1.request() == Some(RequestView::Diff { origin, modified: cleared })
            &&& s2.request() == Some(RequestView::Patch { object: cleared, patch })
            &&& s3.request() == Some(RequestView::PatchStatus { object: patched, patch })
            &&& s4.request() == Some(
                RequestView::Record {
                    object: last,
                    action: PulsarAction::DeleteAddon,
                    message: "Delete managed pulsar instance on clever-cloud"@,
                },
            )
            &&& s5.request() == Some(
                RequestView::Record {
                    object: released,
                    action: PulsarAction::DeleteFinalizer,
                    message: "Delete finalizer from custom resource"@,
                },
            )
            &&& s6.request() == Some(RequestView::Diff { origin, modified: released })
            &&& s7.request() == Some(RequestView::Patch { object: released, patch: last_patch })
            &&& s8 == DeleteView::Finished(Ok(()))
        }),
{
    assert((|other: Seq<char>| other != finalizer) =~= ObjectMetaView::other_than(finalizer));
}

/// The resource that a deletion patches last holds every finalizer other than
/// the operator's as often as the resource that the cluster gave last, wherever
/// the operator's stood in the list, and does not hold the operator's. The rest
/// of its metadata, its spec and its status are those that the cluster gave.
pub proof fn law_delete_keeps_others(
    origin: PulsarView,
    replies: Seq<ReplyView>,
    last: PulsarView,
    released: PulsarView,
    patch: Seq<char>,
)
    requires
        DeleteView::start(origin).accepts_all(replies),
        replies.len() == 7,
        replies[3] == ReplyView::Patched(Ok(last)),
        DeleteView::start(origin).run(replies).request() == Some(
            RequestView::Patch { object: released, patch },
        ),
    ensures
        released.spec == last.spec,
        released.status == last.status,
        released.metadata.name == last.metadata.name,
        released.metadata.namespace == last.metadata.namespace,
        released.metadata.uid == last.metadata.uid,
        released.metadata.finalizers is None <==> last.metadata.finalizers is None,
        last.metadata.finalizers matches Some(there) ==> !released.metadata.finalizers->0.contains(
            "api.clever-cloud.com/pulsar"@,
        ),
        last.metadata.finalizers matches Some(there) ==> forall|other: Seq<char>|
            other != "api.clever-cloud.com/pulsar"@
                ==> #[trigger] released.metadata.finalizers->0.to_multiset().count(other)
                == there.to_multiset().count(other),
{
    crate::svc::crd::pulsar::laws::law_delete_met(origin, replies);
    crate::svc::crd::pulsar::laws::law_delete_script(origin, replies);
    crate::svc::k8s::laws::law_finalizer_removed(
        last.metadata,
        "api.clever-cloud.com/pulsar"@,
        released.metadata,
    );
}

// -----------------------------------------------------------------------------
// Identifier and name of the addon

/// The identifier of the addon is the text of the status field itself, and none
/// where there is no status or the field is empty.
pub proof fn law_addon_read(pulsar: Pulsar)
    ensures
        pulsar.status is None ==> pulsar@.addon() is None,
        pulsar.status matches Some(status) ==> (status.addon is None ==> pulsar@.addon() is None),
        pulsar.status matches Some(status) ==> (status.addon matches Some(id) ==> pulsar@.addon()
            == Some(id@)),
{
}

/// To write the identifier of the addon puts its very text in the status, which
/// is there from then on, and leaves the metadata and the spec alone. What was
/// in the status before does not matter.
pub proof fn law_addon_written(
    pulsar: PulsarView,
    written: PulsarView,
    id: Option<Seq<char>>,
    other: Option<Seq<char>>,
)
    requires
        written == pulsar.with_addon(id),
    ensures
        written.status == Some(id),
        written.metadata == pulsar.metadata,
        written.spec == pulsar.spec,
        pulsar.with_addon(other).with_addon(id) == written,
{
}

/// The name of an addon is the text `kubernetes_` followed by the identifier of
/// the resource, whatever the identifier is.
pub proof fn law_addon_name(uid: Seq<char>)
    ensures
        PulsarView::addon_name(uid).len() == 11 + uid.len(),
        PulsarView::addon_name(uid).take(11) == seq![
            'k',
            'u',
            'b',
            'e',
            'r',
            'n',
            'e',
            't',
            'e',
            's',
            '_',
        ],
        PulsarView::addon_name(uid).skip(11) == uid,
{
    reveal_strlit("kubernetes_");
    assert(PulsarView::addon_name(uid).skip(11) =~= uid);
}

// -----------------------------------------------------------------------------
// Texts

/// The text of an action is its name.
pub proof fn law_action_text(action: PulsarAction)
    ensures
        action is UpsertFinalizer ==> action.text() == "UpsertFinalizer"@,
        action is UpsertAddon ==> action.text() == "UpsertAddon"@,
        action is UpsertSecret ==> action.text() == "UpsertSecret"@,
        action is DeleteFinalizer ==> action.text() == "DeleteFinalizer"@,
        action is DeleteAddon ==> action.text() == "DeleteAddon"@,
{
}

/// The message of a failed request to the api is what the error that it carries
/// displays, and nothing more.
pub proof fn law_request_message(err: RequestError, text: Seq<char>)
    requires
        err.reads(text),
    ensures
        err matches RequestError::Addon(cause) ==> exists|told: String|
            told@ == text && #[trigger] vstd::string::to_string_from_display_ensures::<
                clevercloud_sdk::v2::addon::Error,
            >(&cause, told),
        err matches RequestError::Plan(cause) ==> exists|told: String|
            told@ == text && #[trigger] vstd::string::to_string_from_display_ensures::<
                clevercloud_sdk::v4::addon_provider::plan::Error,
            >(&cause, told),
{
}

/// The message of an error begins with what failed, and goes on with what the
/// error that it carries tells, to the last character.
pub proof fn law_reconciler_message(err: ReconcilerError, text: Seq<char>)
    requires
        err.reads(text),
    ensures
        err matches ReconcilerError::Reconcile(reason) ==> ({
            let start = "failed to reconcile resource, "@;
            start.is_prefix_of(text) && text.skip(start.len() as int) == reason@
        }),
        err matches ReconcilerError::CleverClient(cause) ==> ({
            let start = "failed to execute request on clever-cloud api, "@;
            start.is_prefix_of(text) && cause.reads(text.skip(start.len() as int))
        }),
        err matches ReconcilerError::KubeClient(cause) ==> ({
            let start = "failed to execute request on kubernetes api, "@;
            start.is_prefix_of(text) && exists|told: String|
                told@ == text.skip(start.len() as int)
                    && #[trigger] vstd::string::to_string_from_display_ensures::<kube::Error>(
                    &cause,
                    told,
                )
        }),
        err matches ReconcilerError::Diff(cause) ==> ({
            let start = "failed to compute diff between the original and modified object, "@;
            start.is_prefix_of(text) && exists|told: String|
                told@ == text.skip(start.len() as int)
                    && #[trigger] vstd::string::to_string_from_display_ensures::<serde_json::Error>(
                    &cause,
                    told,
                )
        }),
{
    match err {
        ReconcilerError::Reconcile(reason) => {
            let start = "failed to reconcile resource, "@;
            assert(text.skip(start.len() as int) =~= reason@);
        },
        ReconcilerError::CleverClient(cause) => {
            let start = "failed to execute request on clever-cloud api, "@;
            let told = choose|told: Seq<char>| text == start + told && #[trigger] cause.reads(told);
            assert(text.skip(start.len() as int) =~= told);
        },
        ReconcilerError::KubeClient(cause) => {
            let start = "failed to execute request on kubernetes api, "@;
            let told = choose|told: String|
                text == start + told@
                    && #[trigger] vstd::string::to_string_from_display_ensures::<kube::Error>(
                    &cause,
                    told,
                );
            assert(text.skip(start.len() as int) =~= told@);
        },
        ReconcilerError::Diff(cause) => {
            let start = "failed to compute diff between the original and modified object, "@;
            let told = choose|told: String|
                text == start + told@
                    && #[trigger] vstd::string::to_string_from_display_ensures::<serde_json::Error>(
                    &cause,
                    told,
                );
            assert(text.skip(start.len() as int) =~= told@);
        },
    }
}

// -----------------------------------------------------------------------------
// Models

/// The model of a resource holds every field of it, text for text.
pub proof fn law_resource_model(pulsar: Pulsar)
    ensures
        pulsar@.metadata == pulsar.metadata@,
        pulsar@.spec.organisation == pulsar.spec.organisation@,
        pulsar@.spec.region == pulsar.spec.instance.region@,
        pulsar.status is None ==> pulsar@.status is None,
        pulsar.status matches Some(status) ==> (status.addon is None ==> pulsar@.status == Some(
            None::<Seq<char>>,
        )),
        pulsar.status matches Some(status) ==> (status.addon matches Some(id) ==> pulsar@.status
            == Some(Some(id@))),
{
}

/// The model of a request is of its kind and holds every part of it.
pub proof fn law_request_model(request: Request<&Pulsar, String, &Secrets>)
    ensures
        request matches Request::Diff { origin, modified } ==> request@ == (RequestView::Diff {
            origin: origin@,
            modified: modified@,
        }),
        request matches Request::Patch { object, patch } ==> request@ == (RequestView::Patch {
            object: object@,
            patch: patch@,
        }),
        request matches Request::PatchStatus { object, patch } ==> request@ == (
        RequestView::PatchStatus { object: object@, patch: patch@ }),
        request matches Request::Record { object, action, message } ==> request@ == (
        RequestView::Record { object: object@, action, message: message@ }),
        request matches Request::UpsertAddon { object } ==> request@ == (RequestView::UpsertAddon {
            object: object@,
        }),
        request matches Request::DeleteAddon { object } ==> request@ == (RequestView::DeleteAddon {
            object: object@,
        }),
        request matches Request::ReadSecrets { object } ==> request@ == (RequestView::ReadSecrets {
            object: object@,
        }),
        request matches Request::UpsertSecret { owner, secrets } ==> request@ == (
        RequestView::UpsertSecret { owner: owner@, secrets: secrets@ }),
{
}

/// The model of a reply is of its kind and holds what the reply carries: every
/// secret of a list, and every error.
pub proof fn law_reply_model(reply: Reply<Pulsar, String, Secrets>)
    ensures
        reply matches Reply::Diffed(Ok(patch)) ==> reply@ == ReplyView::Diffed(Ok(patch@)),
        reply matches Reply::Diffed(Err(err)) ==> reply@ == ReplyView::Diffed(Err(err)),
        reply matches Reply::Patched(Ok(object)) ==> reply@ == ReplyView::Patched(Ok(object@)),
        reply matches Reply::Patched(Err(err)) ==> reply@ == ReplyView::Patched(Err(err)),
        reply matches Reply::Recorded(result) ==> reply@ == ReplyView::Recorded(result),
        reply matches Reply::AddonUpserted(Ok(id)) ==> reply@ == ReplyView::AddonUpserted(Ok(id@)),
        reply matches Reply::AddonUpserted(Err(err)) ==> reply@ == ReplyView::AddonUpserted(
            Err(err),
        ),
        reply matches Reply::AddonDeleted(result) ==> reply@ == ReplyView::AddonDeleted(result),
        reply matches Reply::SecretsRead(Ok(Some(secrets))) ==> reply@ == ReplyView::SecretsRead(
            Ok(Some(secrets@)),
        ),
        reply matches Reply::SecretsRead(Ok(None)) ==> reply@ == ReplyView::SecretsRead(Ok(None)),
        reply matches Reply::SecretsRead(Err(err)) ==> reply@ == ReplyView::SecretsRead(Err(err)),
        reply matches Reply::SecretUpserted(Ok(name)) ==> reply@ == ReplyView::SecretUpserted(
            Ok(name@),
        ),
        reply matches Reply::SecretUpserted(Err(err)) ==> reply@ == ReplyView::SecretUpserted(
            Err(err),
        ),
{
}

/// The model of a stage of an upsert is of its kind and holds every part of it.
pub proof fn law_upsert_model(stage: Upsert<Pulsar, String, Secrets>)
    ensures
        stage matches Upsert::FinalizerDiff { origin, modified } ==> stage@ == (
        UpsertView::FinalizerDiff { origin: origin@, modified: modified@ }),
        stage matches Upsert::FinalizerPatch { origin, modified, patch } ==> stage@ == (
        UpsertView::FinalizerPatch { origin: origin@, modified: modified@, patch: patch@ }),
        stage matches Upsert::FinalizerRecord { origin, modified } ==> stage@ == (
        UpsertView::FinalizerRecord { origin: origin@, modified: modified@ }),
        stage matches Upsert::AddonUpsert { origin, modified } ==> stage@ == (
        UpsertView::AddonUpsert { origin: origin@, modified: modified@ }),
        stage matches Upsert::AddonDiff { origin, modified, addon } ==> stage@ == (
        UpsertView::AddonDiff { origin: origin@, modified: modified@, addon: addon@ }),
        stage matches Upsert::AddonPatch { modified, patch, addon } ==> stage@ == (
        UpsertView::AddonPatch { modified: modified@, patch: patch@, addon: addon@ }),
        stage matches Upsert::AddonPatchStatus { modified, patch, addon } ==> stage@ == (
        UpsertView::AddonPatchStatus { modified: modified@, patch: patch@, addon: addon@ }),
        stage matches Upsert::AddonRecord { modified, addon } ==> stage@ == (
        UpsertView::AddonRecord { modified: modified@, addon: addon@ }),
        stage matches Upsert::SecretsRead { modified } ==> stage@ == (UpsertView::SecretsRead {
            modified: modified@,
        }),
        stage matches Upsert::SecretUpsert { modified, secrets } ==> stage@ == (
        UpsertView::SecretUpsert { modified: modified@, secrets: secrets@ }),
        stage matches Upsert::SecretRecord { modified, secret } ==> stage@ == (
        UpsertView::SecretRecord { modified: modified@, secret: secret@ }),
        stage matches Upsert::Finished(result) ==> stage@ == UpsertView::Finished(result),
{
}

/// The model of a stage of a deletion is of its kind and holds every part of
/// it.
pub proof fn law_delete_model(stage: Delete<Pulsar, String>)
    ensures
        stage matches Delete::AddonDelete { origin, modified } ==> stage@ == (
        DeleteView::AddonDelete { origin: origin@, modified: modified@ }),
        stage matches Delete::AddonDiff { origin, modified } ==> stage@ == (DeleteView::AddonDiff {
            origin: origin@,
            modified: modified@,
        }),
        stage matches Delete::AddonPatch { origin, modified, patch } ==> stage@ == (
        DeleteView::AddonPatch { origin: origin@, modified: modified@, patch: patch@ }),
        stage matches Delete::AddonPatchStatus { origin, modified, patch } ==> stage@ == (
        DeleteView::AddonPatchStatus { origin: origin@, modified: modified@, patch: patch@ }),
        stage matches Delete::AddonRecord { origin, modified } ==> stage@ == (
        DeleteView::AddonRecord { origin: origin@, modified: modified@ }),
        stage matches Delete::FinalizerRecord { origin, modified } ==> stage@ == (
        DeleteView::FinalizerRecord { origin: origin@, modified: modified@ }),
        stage matches Delete::FinalizerDiff { origin, modified } ==> stage@ == (
        DeleteView::FinalizerDiff { origin: origin@, modified: modified@ }),
        stage matches Delete::FinalizerPatch { modified, patch } ==> stage@ == (
        DeleteView::FinalizerPatch { modified: modified@, patch: patch@ }),
        stage matches Delete::Finished(result) ==> stage@ == DeleteView::Finished(result),
{
}

} // verus!
