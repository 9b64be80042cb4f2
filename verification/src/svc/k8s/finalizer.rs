//! # Finalizer module
//!
//! Helpers to set and to remove the finalizer of an object.

use crate::svc::k8s::{ObjectMeta, ObjectMetaView};
use vstd::prelude::*;

verus! {

/// Returns whether the object has the given finalizer.
pub fn contains(meta: &ObjectMeta, finalizer: &str) -> (found: bool)
    ensures
        found == meta@.holds(finalizer@),
        found <==> (meta.finalizers matches Some(finalizers) && exists|i: int|
            0 <= i < finalizers@.len() && #[trigger] finalizers@[i]@ == finalizer@),
{
    match &meta.finalizers {
        None => false,
        Some(finalizers) => {
            let wanted: String = finalizer.to_owned();
            let mut i: usize = 0;
            while i < finalizers.len()
                invariant
                    i <= finalizers.len(),
                    wanted@ == finalizer@,
                    meta.finalizers == Some(*finalizers),
                    forall|j: int| 0 <= j < i ==> finalizers@[j]@ != finalizer@,
                decreases finalizers.len() - i,
            {
                if finalizers[i] == wanted {
                    assert(meta@.listed()[i as int] == finalizer@);
                    return true;
                }
                i = i + 1;
            }
            false
        },
    }
}

/// Adds the finalizer to the object, unless it is there.
pub fn add(meta: ObjectMeta, finalizer: &str) -> (modified: ObjectMeta)
    ensures
        modified@ == meta@.with_finalizer(finalizer@),
{
    let found = contains(&meta, finalizer);
    let ghost before = meta@;
    let mut finalizers: Vec<String> = match meta.finalizers {
        Some(finalizers) => finalizers,
        None => Vec::new(),
    };
    assert(finalizers.deep_view() =~= before.listed());
    if !found {
        finalizers.push(finalizer.to_owned());
        assert(finalizers.deep_view() =~= before.listed().push(finalizer@));
    }
    ObjectMeta {
        name: meta.name,
        namespace: meta.namespace,
        uid: meta.uid,
        finalizers: Some(finalizers),
    }
}

/// Removes the finalizer from the object.
pub fn remove(meta: ObjectMeta, finalizer: &str) -> (modified: ObjectMeta)
    ensures
        modified@ == meta@.without_finalizer(finalizer@),
{
    let finalizers: Option<Vec<String>> = match meta.finalizers {
        None => None,
        Some(finalizers) => Some(retain_others(&finalizers, finalizer)),
    };
    ObjectMeta { name: meta.name, namespace: meta.namespace, uid: meta.uid, finalizers }
}

/// The finalizers other than the given one, in the order they had.
fn retain_others(finalizers: &Vec<String>, finalizer: &str) -> (kept: Vec<String>)
    ensures
        kept.deep_view() == finalizers.deep_view().filter(
            ObjectMetaView::other_than(finalizer@),
        ),
{
    let ghost all = finalizers.deep_view();
    let ghost differs = ObjectMetaView::other_than(finalizer@);
    let unwanted: String = finalizer.to_owned();
    let mut kept: Vec<String> = Vec::new();
    let mut i: usize = 0;
    proof {
        reveal(Seq::filter);
        assert(kept.deep_view() =~= all.take(0).filter(differs));
    }
    while i < finalizers.len()
        invariant
            i <= finalizers.len(),
            unwanted@ == finalizer@,
            all == finalizers.deep_view(),
            differs == ObjectMetaView::other_than(finalizer@),
            kept.deep_view() == all.take(i as int).filter(differs),
        decreases finalizers.len() - i,
    {
        let ghost before = kept.deep_view();
        proof {
            reveal(Seq::filter);
            assert(all.take(i + 1).drop_last() =~= all.take(i as int));
        }
        if finalizers[i] != unwanted {
            kept.push(finalizers[i].clone());
            assert(kept.deep_view() =~= before.push(all[i as int]));
        }
        i = i + 1;
    }
    assert(all.take(i as int) =~= all);
    kept
}

} // verus!
