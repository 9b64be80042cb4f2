//! # Laws of the finalizers
//!
//! What holds of the finalizers of every object.

use crate::svc::k8s::{ObjectMeta, ObjectMetaView};
use vstd::prelude::*;

verus! {

/// The model of the metadata holds every field of it, text for text and in the
/// order of the finalizers.
pub proof fn law_metadata_model(meta: ObjectMeta)
    ensures
        meta.name is None ==> meta@.name is None,
        meta.name matches Some(name) ==> meta@.name == Some(name@),
        meta.namespace is None ==> meta@.namespace is None,
        meta.namespace matches Some(namespace) ==> meta@.namespace == Some(namespace@),
        meta.uid is None ==> meta@.uid is None,
        meta.uid matches Some(uid) ==> meta@.uid == Some(uid@),
        meta.finalizers is None ==> meta@.finalizers is None,
        meta.finalizers matches Some(finalizers) ==> (meta@.finalizers matches Some(listed)
            && listed.len() == finalizers@.len() && forall|i: int|
            0 <= i < finalizers@.len() ==> #[trigger] listed[i] == finalizers@[i]@),
{
}

/// A finalizer is held just where it stands somewhere in the list.
pub proof fn law_finalizer_listed(meta: ObjectMetaView, finalizer: Seq<char>)
    ensures
        meta.holds(finalizer) <==> (meta.finalizers matches Some(finalizers) && exists|i: int|
            0 <= i < finalizers.len() && #[trigger] finalizers[i] == finalizer),
{
}

/// To set a finalizer leaves the list alone where it has it, and otherwise puts
/// it behind all the others, which keep their places. Nothing else changes.
pub proof fn law_finalizer_set(meta: ObjectMetaView, finalizer: Seq<char>, set: ObjectMetaView)
    requires
        set == meta.with_finalizer(finalizer),
    ensures
        set.name == meta.name,
        set.namespace == meta.namespace,
        set.uid == meta.uid,
        meta.finalizers is None ==> set.finalizers == Some(seq![finalizer]),
        meta.finalizers matches Some(before) ==> (set.finalizers matches Some(after)
            && before.is_prefix_of(after) && after.len() == before.len() + (if before.contains(
            finalizer,
        ) {
            0int
        } else {
            1int
        }) && after.contains(finalizer)),
{
    law_finalizer_held(meta, finalizer);
    if meta.finalizers is None {
        assert(Seq::empty().push(finalizer) =~= seq![finalizer]);
    }
}

/// To remove a finalizer takes away each of its places in the list: every other
/// finalizer stands there as often as before, and nothing else changes.
pub proof fn law_finalizer_removed(
    meta: ObjectMetaView,
    finalizer: Seq<char>,
    removed: ObjectMetaView,
)
    requires
        removed == meta.without_finalizer(finalizer),
    ensures
        removed.name == meta.name,
        removed.namespace == meta.namespace,
        removed.uid == meta.uid,
        meta.finalizers is None <==> removed.finalizers is None,
        meta.finalizers matches Some(before) ==> !removed.finalizers->0.contains(finalizer),
        meta.finalizers matches Some(before) ==> forall|other: Seq<char>|
            other != finalizer ==> #[trigger] removed.finalizers->0.to_multiset().count(other)
                == before.to_multiset().count(other),
{
    law_finalizer_released(meta, finalizer);
    if let Some(before) = meta.finalizers {
        let differs = ObjectMetaView::other_than(finalizer);
        lemma_filter_count(before, differs);
        assert forall|other: Seq<char>| other != finalizer implies
            #[trigger] removed.finalizers->0.to_multiset().count(other)
            == before.to_multiset().count(other) by {
            assert(differs(other));
        }
        assert(!removed.holds(finalizer));
    }
}

/// To remove a finalizer keeps the others in their order: what is left of a
/// list is what is left of its front, followed by what is left of its back, and
/// of a single finalizer nothing is left but where it is another one.
pub proof fn law_finalizer_removed_in_order(
    meta: ObjectMetaView,
    finalizer: Seq<char>,
    front: Seq<Seq<char>>,
    back: Seq<Seq<char>>,
    single: Seq<char>,
)
    ensures
        (ObjectMetaView { finalizers: Some(front + back), ..meta }).without_finalizer(
            finalizer,
        ).finalizers == Some(
            (ObjectMetaView { finalizers: Some(front), ..meta }).without_finalizer(
                finalizer,
            ).finalizers->0 + (ObjectMetaView {
                finalizers: Some(back),
                ..meta
            }).without_finalizer(finalizer).finalizers->0,
        ),
        (ObjectMetaView { finalizers: Some(seq![single]), ..meta }).without_finalizer(
            finalizer,
        ).finalizers == Some(
            if single == finalizer {
                seq![]
            } else {
                seq![single]
            },
        ),
{
    let differs = ObjectMetaView::other_than(finalizer);
    Seq::filter_distributes_over_add(front, back, differs);
    reveal(Seq::filter);
    assert(seq![single].drop_last() =~= Seq::<Seq<char>>::empty());
    assert(Seq::<Seq<char>>::empty().filter(differs) =~= Seq::<Seq<char>>::empty());
    assert(Seq::<Seq<char>>::empty().push(single) =~= seq![single]);
}

/// What a filter keeps is there as often as before.
proof fn lemma_filter_count(all: Seq<Seq<char>>, keep: spec_fn(Seq<char>) -> bool)
    ensures
        forall|x: Seq<char>|
            keep(x) ==> #[trigger] all.filter(keep).to_multiset().count(x)
                == all.to_multiset().count(x),
    decreases all.len(),
{
    broadcast use vstd::seq_lib::group_to_multiset_ensures;

    reveal(Seq::filter);
    if all.len() > 0 {
        let rest = all.drop_last();
        lemma_filter_count(rest, keep);
        assert(all =~= rest.push(all.last()));
        assert forall|x: Seq<char>| keep(x) implies
            #[trigger] all.filter(keep).to_multiset().count(x) == all.to_multiset().count(x) by {
            assert(rest.filter(keep).to_multiset().count(x) == rest.to_multiset().count(x));
            assert(rest.push(all.last()).to_multiset() == rest.to_multiset().insert(all.last()));
            assert(rest.filter(keep).push(all.last()).to_multiset() == rest.filter(
                keep,
            ).to_multiset().insert(all.last()));
        }
    } else {
        assert(all.filter(keep) =~= all);
    }
}

/// A finalizer that is set is held.
pub proof fn law_finalizer_held(meta: ObjectMetaView, finalizer: Seq<char>)
    ensures
        meta.with_finalizer(finalizer).holds(finalizer),
{
    if !meta.holds(finalizer) {
        assert(meta.listed().push(finalizer).last() == finalizer);
    }
}

/// To set a finalizer twice is to set it once.
pub proof fn law_finalizer_idempotent(meta: ObjectMetaView, finalizer: Seq<char>)
    ensures
        meta.with_finalizer(finalizer).with_finalizer(finalizer) == meta.with_finalizer(finalizer),
{
    law_finalizer_held(meta, finalizer);
}

/// A finalizer that is removed is not held, and the others are held as before.
pub proof fn law_finalizer_released(meta: ObjectMetaView, finalizer: Seq<char>)
    ensures
        !meta.without_finalizer(finalizer).holds(finalizer),
        forall|other: Seq<char>|
            other != finalizer ==> (#[trigger] meta.without_finalizer(finalizer).holds(other)
                <==> meta.holds(other)),
{
    let differs = ObjectMetaView::other_than(finalizer);
    lemma_filter_contains(meta.listed(), differs);
    assert(Seq::<Seq<char>>::empty().filter(differs) =~= Seq::<Seq<char>>::empty()) by {
        reveal(Seq::filter);
    }
    assert(meta.without_finalizer(finalizer).listed() == meta.listed().filter(differs));
    assert forall|other: Seq<char>| other != finalizer implies (
    #[trigger] meta.without_finalizer(finalizer).holds(other) <==> meta.holds(other)) by {
        assert(meta.listed().filter(differs).contains(other) <==> meta.listed().contains(other)
            && differs(other));
    }
    assert(meta.listed().filter(differs).contains(finalizer) <==> meta.listed().contains(finalizer)
        && differs(finalizer));
}

/// What a filter keeps is what was there and passes.
proof fn lemma_filter_contains(all: Seq<Seq<char>>, keep: spec_fn(Seq<char>) -> bool)
    ensures
        forall|x: Seq<char>| #[trigger]
            all.filter(keep).contains(x) <==> all.contains(x) && keep(x),
    decreases all.len(),
{
    reveal(Seq::filter);
    if all.len() > 0 {
        let rest = all.drop_last();
        lemma_filter_contains(rest, keep);
        assert(all =~= rest.push(all.last()));
        assert forall|x: Seq<char>| #[trigger]
            all.filter(keep).contains(x) <==> all.contains(x) && keep(x) by {
            lemma_push_contains(rest, all.last(), x);
            lemma_push_contains(rest.filter(keep), all.last(), x);
            assert(rest.filter(keep).contains(x) <==> rest.contains(x) && keep(x));
        }
    } else {
        assert(all.filter(keep) =~= all);
    }
}

proof fn lemma_push_contains(s: Seq<Seq<char>>, last: Seq<char>, x: Seq<char>)
    ensures
        s.push(last).contains(x) <==> s.contains(x) || x == last,
{
    if s.contains(x) {
        let i = choose|i: int| 0 <= i < s.len() && s[i] == x;
        assert(s.push(last)[i] == x);
    }
    assert(s.push(last)[s.len() as int] == last);
}

/// A filter that all pass changes nothing.
proof fn lemma_filter_all(all: Seq<Seq<char>>, keep: spec_fn(Seq<char>) -> bool)
    requires
        forall|i: int| 0 <= i < all.len() ==> keep(#[trigger] all[i]),
    ensures
        all.filter(keep) == all,
    decreases all.len(),
{
    reveal(Seq::filter);
    if all.len() > 0 {
        let rest = all.drop_last();
        assert forall|i: int| 0 <= i < rest.len() implies keep(#[trigger] rest[i]) by {
            assert(keep(all[i]));
        }
        lemma_filter_all(rest, keep);
        assert(keep(all[all.len() - 1]));
        assert(all =~= rest.push(all.last()));
    } else {
        assert(all.filter(keep) =~= all);
    }
}

/// To remove a finalizer right after it was set gives back the finalizers that
/// were there, in their order, where it was not among them.
pub proof fn law_finalizer_undone(meta: ObjectMetaView, finalizer: Seq<char>)
    requires
        !meta.holds(finalizer),
    ensures
        meta.with_finalizer(finalizer).without_finalizer(finalizer) == (ObjectMetaView {
            finalizers: Some(meta.listed()),
            ..meta
        }),
{
    let differs = ObjectMetaView::other_than(finalizer);
    let listed = meta.listed();
    assert forall|i: int| 0 <= i < listed.len() implies differs(#[trigger] listed[i]) by {
        if listed[i] == finalizer {
            assert(listed.contains(finalizer));
        }
    }
    lemma_filter_all(listed, differs);
    reveal(Seq::filter);
    assert(listed.push(finalizer).drop_last() =~= listed);
}

} // verus!
