//! # Laws of the reconciliation
//!
//! What holds of every reconciliation of a pulsar custom resource, whatever
//! the replies are.

use crate::svc::crd::pulsar::delete::{Delete, DeleteView};
use crate::svc::crd::pulsar::exchange::{Reply, ReplyView, Request, RequestView};
use crate::svc::crd::pulsar::upsert::{Upsert, UpsertView};
use crate::svc::crd::pulsar::{PulsarAction, PulsarView, ReconcilerError, ADDON_FINALIZER};
use crate::svc::k8s::ObjectMetaView;
use vstd::prelude::*;

verus! {

// -----------------------------------------------------------------------------
// Replies

/// Whether none of the replies tells of a failure.
pub open spec fn all_met(replies: Seq<ReplyView>) -> bool {
    forall|i: int| 0 <= i < replies.len() ==> (#[trigger] replies[i]).failure() is None
}

/// A series of replies tells of no failure where neither its last reply nor
/// those before it do.
proof fn lemma_all_met(replies: Seq<ReplyView>)
    requires
        replies.len() > 0,
    ensures
        all_met(replies) <==> all_met(replies.drop_last()) && replies.last().failure() is None,
{
    let before = replies.drop_last();
    if all_met(replies) {
        assert forall|i: int| 0 <= i < before.len() implies (
        #[trigger] before[i]).failure() is None by {
            assert(replies[i].failure() is None);
        }
        assert(replies[replies.len() - 1].failure() is None);
    }
    if all_met(before) && replies.last().failure() is None {
        assert forall|i: int| 0 <= i < replies.len() implies (
        #[trigger] replies[i]).failure() is None by {
            if i < before.len() {
                assert(before[i].failure() is None);
            }
        }
    }
}

impl Reply<PulsarView, Seq<char>, Seq<(String, String)>> {
    /// The patch that was computed.
    pub open spec fn patch(self) -> Seq<char> {
        self->Diffed_0->Ok_0
    }

    /// The resource as it was patched.
    pub open spec fn object(self) -> PulsarView {
        self->Patched_0->Ok_0
    }

    /// The identifier of the addon.
    pub open spec fn addon(self) -> Seq<char> {
        self->AddonUpserted_0->Ok_0
    }

    /// The secrets of the addon.
    pub open spec fn secrets(self) -> Option<Seq<(String, String)>> {
        self->SecretsRead_0->Ok_0
    }

    /// The name of the secret.
    pub open spec fn secret(self) -> Seq<char> {
        self->SecretUpserted_0->Ok_0
    }
}

// -----------------------------------------------------------------------------
// Upsert

/// The request that follows the replies of an upsert that has not failed.
///
/// The finalizer is set and an event tells so. The addon is created, its
/// identifier is written in the status, first through the resource and then
/// through its status, with one patch against the resource as it was at first,
/// and an event tells so. Where the addon gives secrets, they are written and
/// an event tells so.
pub open spec fn upsert_script(origin: PulsarView, replies: Seq<ReplyView>) -> Option<RequestView> {
    let n = replies.len();
    if n == 0 {
        Some(Request::Diff { origin, modified: origin.protected() })
    } else if n == 1 {
        Some(Request::Patch { object: origin.protected(), patch: replies[0].patch() })
    } else if n == 2 {
        Some(
            Request::Record {
                object: replies[1].object(),
                action: PulsarAction::UpsertFinalizer,
                message: "Create finalizer '"@ + ADDON_FINALIZER@ + "'"@,
            },
        )
    } else if n == 3 {
        Some(Request::UpsertAddon { object: replies[1].object() })
    } else if n == 4 {
        Some(
            Request::Diff {
                origin,
                modified: replies[1].object().with_addon(Some(replies[3].addon())),
            },
        )
    } else if n == 5 {
        Some(
            Request::Patch {
                object: replies[1].object().with_addon(Some(replies[3].addon())),
                patch: replies[4].patch(),
            },
        )
    } else if n == 6 {
        Some(Request::PatchStatus { object: replies[5].object(), patch: replies[4].patch() })
    } else if n == 7 {
        Some(
            Request::Record {
                object: replies[6].object(),
                action: PulsarAction::UpsertAddon,
                message: "Create managed pulsar instance on clever-cloud '"@ + replies[3].addon()
                    + "'"@,
            },
        )
    } else if n == 8 {
        Some(Request::ReadSecrets { object: replies[6].object() })
    } else if n == 9 {
        match replies[8].secrets() {
            Some(secrets) => Some(Request::UpsertSecret { owner: replies[6].object(), secrets }),
            None => None,
        }
    } else if n == 10 {
        Some(
            Request::Record {
                object: replies[6].object(),
                action: PulsarAction::UpsertSecret,
                message: "Create kubernetes secret '"@ + replies[9].secret() + "'"@,
            },
        )
    } else {
        None
    }
}

/// The stage that the replies of an upsert that has not failed lead to.
spec fn upsert_stage(origin: PulsarView, replies: Seq<ReplyView>) -> UpsertView {
    let n = replies.len();
    if n == 0 {
        Upsert::FinalizerDiff { origin, modified: origin.protected() }
    } else if n == 1 {
        Upsert::FinalizerPatch {
            origin,
            modified: origin.protected(),
            patch: replies[0].patch(),
        }
    } else if n == 2 {
        Upsert::FinalizerRecord { origin, modified: replies[1].object() }
    } else if n == 3 {
        Upsert::AddonUpsert { origin, modified: replies[1].object() }
    } else if n == 4 {
        Upsert::AddonDiff {
            origin,
            modified: replies[1].object().with_addon(Some(replies[3].addon())),
            addon: replies[3].addon(),
        }
    } else if n == 5 {
        Upsert::AddonPatch {
            modified: replies[1].object().with_addon(Some(replies[3].addon())),
            patch: replies[4].patch(),
            addon: replies[3].addon(),
        }
    } else if n == 6 {
        Upsert::AddonPatchStatus {
            modified: replies[5].object(),
            patch: replies[4].patch(),
            addon: replies[3].addon(),
        }
    } else if n == 7 {
        Upsert::AddonRecord { modified: replies[6].object(), addon: replies[3].addon() }
    } else if n == 8 {
        Upsert::SecretsRead { modified: replies[6].object() }
    } else if n == 9 && replies[8].secrets() is Some {
        Upsert::SecretUpsert { modified: replies[6].object(), secrets: replies[8].secrets()->0 }
    } else if n == 10 {
        Upsert::SecretRecord { modified: replies[6].object(), secret: replies[9].secret() }
    } else {
        Upsert::Finished(Ok(()))
    }
}

/// The number of replies that lead an upsert to its end.
pub open spec fn upsert_length(replies: Seq<ReplyView>) -> nat {
    if replies.len() > 8 && replies[8].secrets() is None {
        9
    } else {
        11
    }
}

proof fn lemma_upsert_stage(origin: PulsarView, replies: Seq<ReplyView>)
    requires
        UpsertView::start(origin).accepts_all(replies),
        all_met(replies),
    ensures
        UpsertView::start(origin).run(replies) == upsert_stage(origin, replies),
        replies.len() <= upsert_length(replies),
    decreases replies.len(),
{
    if replies.len() > 0 {
        lemma_all_met(replies);
        lemma_upsert_stage(origin, replies.drop_last());
    }
}

/// Every request of an upsert that has not failed is the one that the script
/// gives, and the upsert is finished when the script is.
pub proof fn law_upsert_script(origin: PulsarView, replies: Seq<ReplyView>)
    requires
        UpsertView::start(origin).accepts_all(replies),
        all_met(replies),
    ensures
        UpsertView::start(origin).run(replies).request() == upsert_script(origin, replies),
        replies.len() <= upsert_length(replies),
        replies.len() == upsert_length(replies) <==> UpsertView::start(origin).run(replies)
            == UpsertView::Finished(Ok(())),
{
    lemma_upsert_stage(origin, replies);
}

/// An upsert fails with the first request that fails, and with its error.
pub proof fn law_upsert_failure(origin: PulsarView, replies: Seq<ReplyView>, err: ReconcilerError)
    requires
        UpsertView::start(origin).accepts_all(replies),
    ensures
        UpsertView::start(origin).run(replies) == UpsertView::Finished(Err(err)) <==> {
            &&& replies.len() > 0
            &&& all_met(replies.drop_last())
            &&& replies.last().failure() == Some(err)
        },
{
    law_upsert_met_until_last(origin, replies);
}

/// Only the last reply of an upsert can tell of a failure.
pub proof fn law_upsert_met_until_last(origin: PulsarView, replies: Seq<ReplyView>)
    requires
        UpsertView::start(origin).accepts_all(replies),
    ensures
        replies.len() > 0 ==> all_met(replies.drop_last()),
    decreases replies.len(),
{
    if replies.len() > 0 {
        let before = replies.drop_last();
        law_upsert_met_until_last(origin, before);
        if before.len() > 0 {
            assert(UpsertView::start(origin).run(before) == UpsertView::start(origin).run(
                before.drop_last(),
            ).after(before.last()));
            lemma_all_met(before);
        }
    }
}

/// An upsert comes to its end, whatever the replies are.
pub proof fn law_upsert_ends(origin: PulsarView, replies: Seq<ReplyView>)
    requires
        UpsertView::start(origin).accepts_all(replies),
    ensures
        replies.len() <= 11,
        replies.len() == 11 ==> UpsertView::start(origin).run(replies).request() is None,
{
    law_upsert_met_until_last(origin, replies);
    if replies.len() > 0 {
        lemma_upsert_stage(origin, replies.drop_last());
    }
}

/// The addon is asked for only once the cluster has taken the patch that puts
/// the finalizer on the resource.
pub proof fn law_finalizer_before_addon(origin: PulsarView, replies: Seq<ReplyView>, object: PulsarView)
    requires
        UpsertView::start(origin).accepts_all(replies),
        UpsertView::start(origin).run(replies).request() == Some(
            RequestView::UpsertAddon { object },
        ),
    ensures
        replies.len() == 3,
        UpsertView::start(origin).run(replies.take(1)).request() == Some(
            RequestView::Patch { object: origin.protected(), patch: replies[0].patch() },
        ),
        origin.protected().metadata.holds(ADDON_FINALIZER@),
        replies[1] == ReplyView::Patched(Ok(object)),
{
    law_upsert_met(origin, replies);
    lemma_upsert_stage(origin, replies);
    law_upsert_prefix(origin, replies, 1);
    lemma_upsert_stage(origin, replies.take(1));
    assert(replies[1].failure() is None);
    crate::svc::k8s::laws::law_finalizer_held(origin.metadata, ADDON_FINALIZER@);
}

/// The first replies of an upsert are replies of an upsert: they are those of
/// one that has not failed where more follow, and the next answers the request
/// that is then waited on.
pub proof fn law_upsert_prefix(origin: PulsarView, replies: Seq<ReplyView>, n: int)
    requires
        UpsertView::start(origin).accepts_all(replies),
        0 <= n <= replies.len(),
    ensures
        UpsertView::start(origin).accepts_all(replies.take(n)),
        n < replies.len() ==> all_met(replies.take(n)),
        n < replies.len() ==> UpsertView::start(origin).run(replies.take(n)).accepts(replies[n]),
    decreases replies.len(),
{
    if n < replies.len() {
        let before = replies.drop_last();
        law_upsert_prefix(origin, before, n);
        law_upsert_met_until_last(origin, replies);
        assert(before.take(n) =~= replies.take(n));
        if n == before.len() {
            assert(before.take(n) =~= before);
        }
    } else {
        assert(replies.take(n) =~= replies);
    }
}

/// An upsert has seen no failure just where it waits on a request or succeeded.
pub proof fn law_upsert_met(origin: PulsarView, replies: Seq<ReplyView>)
    requires
        UpsertView::start(origin).accepts_all(replies),
    ensures
        all_met(replies) <==> !(UpsertView::start(origin).run(replies) matches Upsert::Finished(
            Err(_),
        )),
{
    if replies.len() > 0 {
        law_upsert_met_until_last(origin, replies);
        lemma_all_met(replies);
        lemma_upsert_stage(origin, replies.drop_last());
    }
}

// -----------------------------------------------------------------------------
// Delete

/// The request that follows the replies of a deletion that has not failed.
///
/// The addon is deleted, its identifier is taken from the status, first
/// through the resource and then through its status, with one patch against
/// the resource as it was at first, and an event tells so. The finalizer goes
/// last: an event tells so, and the resource is patched.
pub open spec fn delete_script(origin: PulsarView, replies: Seq<ReplyView>) -> Option<RequestView> {
    let n = replies.len();
    if n == 0 {
        Some(Request::DeleteAddon { object: origin })
    } else if n == 1 {
        Some(Request::Diff { origin, modified: origin.with_addon(None) })
    } else if n == 2 {
        Some(Request::Patch { object: origin.with_addon(None), patch: replies[1].patch() })
    } else if n == 3 {
        Some(Request::PatchStatus { object: replies[2].object(), patch: replies[1].patch() })
    } else if n == 4 {
        Some(
            Request::Record {
                object: replies[3].object(),
                action: PulsarAction::DeleteAddon,
                message: "Delete managed pulsar instance on clever-cloud"@,
            },
        )
    } else if n == 5 {
        Some(
            Request::Record {
                object: replies[3].object().released(),
                action: PulsarAction::DeleteFinalizer,
                message: "Delete finalizer from custom resource"@,
            },
        )
    } else if n == 6 {
        Some(Request::Diff { origin, modified: replies[3].object().released() })
    } else if n == 7 {
        Some(Request::Patch { object: replies[3].object().released(), patch: replies[6].patch() })
    } else {
        None
    }
}

/// The stage that the replies of a deletion that has not failed lead to.
spec fn delete_stage(origin: PulsarView, replies: Seq<ReplyView>) -> DeleteView {
    let n = replies.len();
    if n == 0 {
        Delete::AddonDelete { origin, modified: origin }
    } else if n == 1 {
        Delete::AddonDiff { origin, modified: origin.with_addon(None) }
    } else if n == 2 {
        Delete::AddonPatch {
            origin,
            modified: origin.with_addon(None),
            patch: replies[1].patch(),
        }
    } else if n == 3 {
        Delete::AddonPatchStatus {
            origin,
            modified: replies[2].object(),
            patch: replies[1].patch(),
        }
    } else if n == 4 {
        Delete::AddonRecord { origin, modified: replies[3].object() }
    } else if n == 5 {
        Delete::FinalizerRecord { origin, modified: replies[3].object().released() }
    } else if n == 6 {
        Delete::FinalizerDiff { origin, modified: replies[3].object().released() }
    } else if n == 7 {
        Delete::FinalizerPatch {
            modified: replies[3].object().released(),
            patch: replies[6].patch(),
        }
    } else {
        Delete::Finished(Ok(()))
    }
}

proof fn lemma_delete_stage(origin: PulsarView, replies: Seq<ReplyView>)
    requires
        DeleteView::start(origin).accepts_all(replies),
        all_met(replies),
    ensures
        DeleteView::start(origin).run(replies) == delete_stage(origin, replies),
        replies.len() <= 8,
    decreases replies.len(),
{
    if replies.len() > 0 {
        lemma_all_met(replies);
        lemma_delete_stage(origin, replies.drop_last());
    }
}

/// Every request of a deletion that has not failed is the one that the script
/// gives, and the deletion is finished when the script is.
pub proof fn law_delete_script(origin: PulsarView, replies: Seq<ReplyView>)
    requires
        DeleteView::start(origin).accepts_all(replies),
        all_met(replies),
    ensures
        DeleteView::start(origin).run(replies).request() == delete_script(origin, replies),
        replies.len() <= 8,
        replies.len() == 8 <==> DeleteView::start(origin).run(replies) == DeleteView::Finished(
            Ok(()),
        ),
{
    lemma_delete_stage(origin, replies);
}

/// A deletion fails with the first request that fails, and with its error.
pub proof fn law_delete_failure(origin: PulsarView, replies: Seq<ReplyView>, err: ReconcilerError)
    requires
        DeleteView::start(origin).accepts_all(replies),
    ensures
        DeleteView::start(origin).run(replies) == DeleteView::Finished(Err(err)) <==> {
            &&& replies.len() > 0
            &&& all_met(replies.drop_last())
            &&& replies.last().failure() == Some(err)
        },
{
    law_delete_met_until_last(origin, replies);
}

/// A deletion comes to its end, whatever the replies are.
pub proof fn law_delete_ends(origin: PulsarView, replies: Seq<ReplyView>)
    requires
        DeleteView::start(origin).accepts_all(replies),
    ensures
        replies.len() <= 8,
        replies.len() == 8 ==> DeleteView::start(origin).run(replies).request() is None,
{
    law_delete_met_until_last(origin, replies);
    if replies.len() > 0 {
        lemma_delete_stage(origin, replies.drop_last());
    }
}

/// Only the last reply of a deletion can tell of a failure.
pub proof fn law_delete_met_until_last(origin: PulsarView, replies: Seq<ReplyView>)
    requires
        DeleteView::start(origin).accepts_all(replies),
    ensures
        replies.len() > 0 ==> all_met(replies.drop_last()),
    decreases replies.len(),
{
    if replies.len() > 0 {
        let before = replies.drop_last();
        law_delete_met_until_last(origin, before);
        if before.len() > 0 {
            assert(DeleteView::start(origin).run(before) == DeleteView::start(origin).run(
                before.drop_last(),
            ).after(before.last()));
            lemma_all_met(before);
        }
    }
}

/// The first replies of a deletion are replies of a deletion: they are those of
/// one that has not failed where more follow, and the next answers the request
/// that is then waited on.
pub proof fn law_delete_prefix(origin: PulsarView, replies: Seq<ReplyView>, n: int)
    requires
        DeleteView::start(origin).accepts_all(replies),
        0 <= n <= replies.len(),
    ensures
        DeleteView::start(origin).accepts_all(replies.take(n)),
        n < replies.len() ==> all_met(replies.take(n)),
        n < replies.len() ==> DeleteView::start(origin).run(replies.take(n)).accepts(replies[n]),
    decreases replies.len(),
{
    if n < replies.len() {
        let before = replies.drop_last();
        law_delete_prefix(origin, before, n);
        law_delete_met_until_last(origin, replies);
        assert(before.take(n) =~= replies.take(n));
        if n == before.len() {
            assert(before.take(n) =~= before);
        }
    } else {
        assert(replies.take(n) =~= replies);
    }
}

/// A deletion has seen no failure just where it waits on a request or succeeded.
pub proof fn law_delete_met(origin: PulsarView, replies: Seq<ReplyView>)
    requires
        DeleteView::start(origin).accepts_all(replies),
    ensures
        all_met(replies) <==> !(DeleteView::start(origin).run(replies) matches Delete::Finished(
            Err(_),
        )),
{
    if replies.len() > 0 {
        law_delete_met_until_last(origin, replies);
        lemma_all_met(replies);
        lemma_delete_stage(origin, replies.drop_last());
    }
}

/// Nothing but the deletion of the addon is asked for until the addon is gone:
/// the finalizer stays on the resource as long as the deletion has not
/// succeeded.
pub proof fn law_addon_deleted_first(origin: PulsarView, replies: Seq<ReplyView>, request: RequestView)
    requires
        DeleteView::start(origin).accepts_all(replies),
        DeleteView::start(origin).run(replies).request() == Some(request),
    ensures
        request != (RequestView::DeleteAddon { object: origin }) ==> {
            &&& replies.len() > 0
            &&& replies[0] matches Reply::AddonDeleted(Ok(_))
        },
{
    law_delete_met(origin, replies);
    lemma_delete_stage(origin, replies);
    if replies.len() > 0 {
        law_delete_prefix(origin, replies, 0);
        assert(replies[0].failure() is None);
    }
}

/// What is patched last in a deletion does not hold the finalizer any more.
pub proof fn law_delete_releases(origin: PulsarView, replies: Seq<ReplyView>, object: PulsarView, patch: Seq<char>)
    requires
        DeleteView::start(origin).accepts_all(replies),
        replies.len() == 7,
        DeleteView::start(origin).run(replies).request() == Some(
            RequestView::Patch { object, patch },
        ),
    ensures
        !object.metadata.holds(ADDON_FINALIZER@),
{
    law_delete_met(origin, replies);
    lemma_delete_stage(origin, replies);
    crate::svc::k8s::laws::law_finalizer_released(replies[3].object().metadata, ADDON_FINALIZER@);
}

// -----------------------------------------------------------------------------
// Resource

/// What is written as the identifier of the addon is what is read, and nothing
/// else changes.
pub proof fn law_addon_read_back(pulsar: PulsarView, id: Option<Seq<char>>)
    ensures
        pulsar.with_addon(id).addon() == id,
        pulsar.with_addon(id).metadata == pulsar.metadata,
        pulsar.with_addon(id).spec == pulsar.spec,
{
}

/// Whether `reply` gives a resource back as the request sent it.
pub open spec fn taken_as_sent(request: Option<RequestView>, reply: ReplyView) -> bool {
    match request {
        Some(Request::Patch { object, .. }) => reply.object() == object,
        Some(Request::PatchStatus { object, .. }) => reply.object() == object,
        _ => true,
    }
}

/// An upsert of a resource that holds the finalizer asks first for no change:
/// the patch that sets the finalizer leads from the resource to itself.
pub proof fn law_finalizer_again(pulsar: PulsarView)
    requires
        pulsar.metadata.holds(ADDON_FINALIZER@),
    ensures
        UpsertView::start(pulsar).request() == Some(
            RequestView::Diff { origin: pulsar, modified: pulsar },
        ),
{
}

/// An upsert of a resource that was upserted asks for no change: the patch that
/// sets the finalizer leads from the resource to itself, and so does the one
/// that writes the identifier of the addon, where the cluster takes the first
/// patch as it is sent and the addon is the one that the resource has.
pub proof fn law_upsert_again(pulsar: PulsarView, replies: Seq<ReplyView>)
    requires
        pulsar.metadata.holds(ADDON_FINALIZER@),
        UpsertView::start(pulsar).accepts_all(replies),
        all_met(replies),
        replies.len() == 4,
        taken_as_sent(UpsertView::start(pulsar).run(replies.take(1)).request(), replies[1]),
        pulsar.addon() == Some(replies[3].addon()),
    ensures
        UpsertView::start(pulsar).request() == Some(
            RequestView::Diff { origin: pulsar, modified: pulsar },
        ),
        UpsertView::start(pulsar).run(replies).request() == Some(
            RequestView::Diff { origin: pulsar, modified: pulsar },
        ),
{
    lemma_upsert_stage(pulsar, replies);
    law_upsert_prefix(pulsar, replies, 1);
    lemma_upsert_stage(pulsar, replies.take(1));
}

/// A deletion undoes an upsert: where the cluster takes every patch as it is
/// sent, the resource that was upserted and then deleted is patched, last of
/// all, to one that has no addon and does not hold the finalizer, and that is
/// otherwise the resource as it was at first.
pub proof fn law_delete_undoes_upsert(
    origin: PulsarView,
    upsert: Seq<ReplyView>,
    upserted: PulsarView,
    delete: Seq<ReplyView>,
    deleted: PulsarView,
    patch: Seq<char>,
)
    requires
        UpsertView::start(origin).accepts_all(upsert),
        forall|i: int|
            0 <= i < upsert.len() ==> taken_as_sent(
                UpsertView::start(origin).run(#[trigger] upsert.take(i)).request(),
                upsert[i],
            ),
        UpsertView::start(origin).run(upsert).request() == Some(
            RequestView::ReadSecrets { object: upserted },
        ),
        DeleteView::start(upserted).accepts_all(delete),
        forall|i: int|
            0 <= i < delete.len() ==> taken_as_sent(
                DeleteView::start(upserted).run(#[trigger] delete.take(i)).request(),
                delete[i],
            ),
        delete.len() == 7,
        DeleteView::start(upserted).run(delete).request() == Some(
            RequestView::Patch { object: deleted, patch },
        ),
    ensures
        upserted == origin.protected().with_addon(Some(upsert[3].addon())),
        deleted == upserted.with_addon(None).released(),
        deleted.addon() is None,
        deleted.spec == origin.spec,
        !deleted.metadata.holds(ADDON_FINALIZER@),
        !origin.metadata.holds(ADDON_FINALIZER@) ==> deleted.metadata == (ObjectMetaView {
            finalizers: Some(origin.metadata.listed()),
            ..origin.metadata
        }),
{
    law_upsert_met(origin, upsert);
    lemma_upsert_stage(origin, upsert);
    assert(upsert.len() == 8);
    law_upsert_prefix(origin, upsert, 1);
    lemma_upsert_stage(origin, upsert.take(1));
    law_upsert_prefix(origin, upsert, 5);
    lemma_upsert_stage(origin, upsert.take(5));
    law_upsert_prefix(origin, upsert, 6);
    lemma_upsert_stage(origin, upsert.take(6));
    law_delete_met(upserted, delete);
    lemma_delete_stage(upserted, delete);
    law_delete_prefix(upserted, delete, 2);
    lemma_delete_stage(upserted, delete.take(2));
    law_delete_prefix(upserted, delete, 3);
    lemma_delete_stage(upserted, delete.take(3));
    crate::svc::k8s::laws::law_finalizer_released(upserted.metadata, ADDON_FINALIZER@);
    if !origin.metadata.holds(ADDON_FINALIZER@) {
        crate::svc::k8s::laws::law_finalizer_undone(origin.metadata, ADDON_FINALIZER@);
    }
}

/// Two resources share the name of an addon only if they share an identifier.
pub proof fn law_addon_name_injective(a: Seq<char>, b: Seq<char>)
    ensures
        PulsarView::addon_name(a) == PulsarView::addon_name(b) <==> a == b,
{
    let prefix = "kubernetes_"@;
    if PulsarView::addon_name(a) == PulsarView::addon_name(b) {
        assert(a =~= PulsarView::addon_name(a).skip(prefix.len() as int));
        assert(b =~= PulsarView::addon_name(b).skip(prefix.len() as int));
    }
}

/// Each action has a text of its own.
pub proof fn law_action_text_injective(a: PulsarAction, b: PulsarAction)
    ensures
        a.text() == b.text() <==> a == b,
{
    reveal_strlit("UpsertFinalizer");
    reveal_strlit("UpsertAddon");
    reveal_strlit("UpsertSecret");
    reveal_strlit("DeleteFinalizer");
    reveal_strlit("DeleteAddon");
    if a != b {
        assert(a.text().len() != b.text().len() || a.text()[0] != b.text()[0]);
    }
}

} // verus!
