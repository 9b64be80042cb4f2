//! # Kubernetes module
//!
//! What the operator reads and writes of a Kubernetes object.

use vstd::prelude::*;

pub mod client;
pub mod finalizer;
pub mod laws;

verus! {

/// The part of an object's metadata that the operator reads and writes.
#[derive(PartialEq, Debug)]
pub struct ObjectMeta {
    pub name: Option<String>,
    pub namespace: Option<String>,
    pub uid: Option<String>,
    pub finalizers: Option<Vec<String>>,
}

/// The model of [`ObjectMeta`].
pub struct ObjectMetaView {
    pub name: Option<Seq<char>>,
    pub namespace: Option<Seq<char>>,
    pub uid: Option<Seq<char>>,
    pub finalizers: Option<Seq<Seq<char>>>,
}

impl View for ObjectMeta {
    type V = ObjectMetaView;

    open spec fn view(&self) -> ObjectMetaView {
        ObjectMetaView {
            name: self.name.deep_view(),
            namespace: self.namespace.deep_view(),
            uid: self.uid.deep_view(),
            finalizers: self.finalizers.deep_view(),
        }
    }
}

impl Clone for ObjectMeta {
    fn clone(&self) -> (copy: Self)
        ensures
            copy@ == self@,
    {
        let copy = ObjectMeta {
            name: self.name.clone(),
            namespace: self.namespace.clone(),
            uid: self.uid.clone(),
            finalizers: self.finalizers.clone(),
        };
        proof {
            if self.finalizers is Some {
                assert(copy.finalizers->0.deep_view() =~= self.finalizers->0.deep_view());
            }
        }
        copy
    }
}

impl ObjectMetaView {
    /// The finalizers of the object, none being the same as an empty list.
    pub open spec fn listed(self) -> Seq<Seq<char>> {
        match self.finalizers {
            Some(finalizers) => finalizers,
            None => Seq::empty(),
        }
    }

    /// Whether `finalizer` keeps the object from being deleted.
    pub open spec fn holds(self, finalizer: Seq<char>) -> bool {
        self.listed().contains(finalizer)
    }

    /// The metadata once `finalizer` is set: it goes last, unless it is there.
    pub open spec fn with_finalizer(self, finalizer: Seq<char>) -> ObjectMetaView {
        ObjectMetaView {
            finalizers: Some(
                if self.holds(finalizer) {
                    self.listed()
                } else {
                    self.listed().push(finalizer)
                },
            ),
            ..self
        }
    }

    /// The finalizers that are not the given one.
    pub open spec fn other_than(finalizer: Seq<char>) -> spec_fn(Seq<char>) -> bool {
        |other: Seq<char>| other != finalizer
    }

    /// The metadata once `finalizer` is taken away, wherever it stood.
    pub open spec fn without_finalizer(self, finalizer: Seq<char>) -> ObjectMetaView {
        ObjectMetaView {
            finalizers: match self.finalizers {
                Some(finalizers) => Some(finalizers.filter(Self::other_than(finalizer))),
                None => None,
            },
            ..self
        }
    }
}

} // verus!
