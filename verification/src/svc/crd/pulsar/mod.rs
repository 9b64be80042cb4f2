//! # Pulsar addon
//!
//! This module provide the pulsar custom resource and its definition

use crate::svc::clevercloud::{self, CreateAddonOpts, RequestError};
use crate::svc::crd::pulsar::delete::{Delete, DeleteView};
use crate::svc::crd::pulsar::exchange::Secrets;
use crate::svc::crd::pulsar::upsert::{Upsert, UpsertView};
use crate::svc::k8s::{ObjectMeta, ObjectMetaView};
use clevercloud_sdk::{v2, v4};
use vstd::prelude::*;

pub mod delete;
pub mod exchange;
pub mod laws;
pub mod steps;
pub mod upsert;

verus! {

// -----------------------------------------------------------------------------
// Constants

pub const ADDON_FINALIZER: &'static str = "api.clever-cloud.com/pulsar";

pub const ADDON_BETA_PLAN: &'static str = "plan_3ad3c5be-5c1e-4dae-bf9a-87120b88fc13";

// -----------------------------------------------------------------------------
// PulsarInstance structure

/// Where the addon runs.
#[derive(PartialEq, Debug)]
pub struct PulsarInstance {
    pub region: String,
}

impl Clone for PulsarInstance {
    fn clone(&self) -> (copy: Self)
        ensures
            copy == *self,
    {
        PulsarInstance { region: self.region.clone() }
    }
}

// -----------------------------------------------------------------------------
// PulsarSpec structure

/// What the user asks for.
#[derive(PartialEq, Debug)]
pub struct PulsarSpec {
    pub organisation: String,
    pub instance: PulsarInstance,
}

/// The model of [`PulsarSpec`].
pub struct PulsarSpecView {
    pub organisation: Seq<char>,
    pub region: Seq<char>,
}

impl View for PulsarSpec {
    type V = PulsarSpecView;

    open spec fn view(&self) -> PulsarSpecView {
        PulsarSpecView { organisation: self.organisation@, region: self.instance.region@ }
    }
}

impl Clone for PulsarSpec {
    fn clone(&self) -> (copy: Self)
        ensures
            copy == *self,
    {
        PulsarSpec { organisation: self.organisation.clone(), instance: self.instance.clone() }
    }
}

// -----------------------------------------------------------------------------
// PulsarStatus structure

/// What the operator knows of the addon.
#[derive(PartialEq, Debug)]
pub struct PulsarStatus {
    pub addon: Option<String>,
}

impl Clone for PulsarStatus {
    fn clone(&self) -> (copy: Self)
        ensures
            copy == *self,
    {
        PulsarStatus { addon: self.addon.clone() }
    }
}

impl Default for PulsarStatus {
    fn default() -> (status: Self)
        ensures
            status.addon is None,
    {
        PulsarStatus { addon: None }
    }
}

// -----------------------------------------------------------------------------
// Pulsar structure

/// The pulsar custom resource.
#[derive(PartialEq, Debug)]
pub struct Pulsar {
    pub metadata: ObjectMeta,
    pub spec: PulsarSpec,
    pub status: Option<PulsarStatus>,
}

/// The model of [`Pulsar`]: the identifier of the addon stands in `status`
/// where the resource has one.
pub struct PulsarView {
    pub metadata: ObjectMetaView,
    pub spec: PulsarSpecView,
    pub status: Option<Option<Seq<char>>>,
}

impl View for Pulsar {
    type V = PulsarView;

    open spec fn view(&self) -> PulsarView {
        PulsarView {
            metadata: self.metadata@,
            spec: self.spec@,
            status: match self.status {
                Some(status) => Some(status.addon.deep_view()),
                None => None,
            },
        }
    }
}

impl Clone for Pulsar {
    fn clone(&self) -> (copy: Self)
        ensures
            copy@ == self@,
    {
        Pulsar {
            metadata: self.metadata.clone(),
            spec: self.spec.clone(),
            status: self.status.clone(),
        }
    }
}

impl PulsarView {
    /// The identifier of the addon, if the status gives one.
    pub open spec fn addon(self) -> Option<Seq<char>> {
        match self.status {
            Some(addon) => addon,
            None => None,
        }
    }

    /// The resource with `id` as the identifier of its addon.
    pub open spec fn with_addon(self, id: Option<Seq<char>>) -> PulsarView {
        PulsarView { status: Some(id), ..self }
    }

    /// The resource that the operator's finalizer protects.
    pub open spec fn protected(self) -> PulsarView {
        PulsarView { metadata: self.metadata.with_finalizer(ADDON_FINALIZER@), ..self }
    }

    /// The resource without the operator's finalizer.
    pub open spec fn released(self) -> PulsarView {
        PulsarView { metadata: self.metadata.without_finalizer(ADDON_FINALIZER@), ..self }
    }

    /// The name that the addon of a resource with this identifier has.
    pub open spec fn addon_name(uid: Seq<char>) -> Seq<char> {
        "kubernetes_"@ + uid
    }
}

impl Pulsar {
    /// What is asked of the api to create the addon of the resource. The
    /// resource has an identifier, as all resources in kubernetes have.
    pub fn into(self) -> (opts: CreateAddonOpts)
        requires
            self.metadata.uid is Some,
        ensures
            opts.name@ == PulsarView::addon_name(self.metadata.uid->0@),
            opts.name@ == "kubernetes_"@ + self.metadata.uid->0@,
            opts.region@ == self.spec.instance.region@,
            opts.provider_id@ == "addon-pulsar"@,
            opts.plan@ == ADDON_BETA_PLAN@,
            opts.plan@ == "plan_3ad3c5be-5c1e-4dae-bf9a-87120b88fc13"@,
            opts.options.version is None,
            opts.options.encryption is None,
    {
        CreateAddonOpts {
            name: self.name(),
            region: self.spec.instance.region.clone(),
            provider_id: clevercloud::pulsar_provider_id(),
            plan: ADDON_BETA_PLAN.to_owned(),
            options: clevercloud::default_addon_opts(),
        }
    }

    /// The identifier of the addon.
    pub fn id(&self) -> (id: Option<String>)
        ensures
            id.deep_view() == self@.addon(),
            self.status matches Some(status) ==> id.deep_view() == status.addon.deep_view(),
            self.status is None ==> id is None,
    {
        if let Some(status) = &self.status {
            return status.addon.clone();
        }
        None
    }

    /// The organisation that owns the addon.
    pub fn organisation(&self) -> (organisation: String)
        ensures
            organisation@ == self@.spec.organisation,
            organisation@ == self.spec.organisation@,
    {
        self.spec.organisation.clone()
    }

    /// The name of the addon. The resource has an identifier, as all resources
    /// in kubernetes have.
    pub fn name(&self) -> (name: String)
        requires
            self.metadata.uid is Some,
        ensures
            name@ == PulsarView::addon_name(self.metadata.uid->0@),
            name@ == "kubernetes_"@ + self.metadata.uid->0@,
    {
        let uid: String = self.metadata.uid.clone().expect(
            "expect all resources in kubernetes to have an identifier",
        );
        "kubernetes_".to_owned().concat(uid.as_str())
    }

    /// Writes the identifier of the addon in the status, which is created
    /// where the resource has none.
    pub fn set_addon_id(&mut self, id: Option<String>)
        ensures
            final(self)@ == old(self)@.with_addon(id.deep_view()),
            final(self).status matches Some(status) && status.addon == id,
            final(self).metadata == old(self).metadata,
            final(self).spec == old(self).spec,
    {
        self.status = Some(PulsarStatus { addon: id });
    }

    /// The identifier of the addon that was last written in the status.
    pub fn get_addon_id(&self) -> (id: Option<String>)
        ensures
            id.deep_view() == self@.addon(),
            self.status matches Some(status) ==> id.deep_view() == status.addon.deep_view(),
            self.status is None ==> id is None,
    {
        self.status.clone().unwrap_or_default().addon
    }
}

// -----------------------------------------------------------------------------
// PulsarAction structure

/// What the operator has done to a resource, as the events on it tell.
#[derive(PartialEq, Eq, Structural, PartialOrd, Ord, Hash, Clone, Debug)]
pub enum PulsarAction {
    UpsertFinalizer,
    UpsertAddon,
    UpsertSecret,
    DeleteFinalizer,
    DeleteAddon,
}

impl PulsarAction {
    /// The text that stands for the action.
    pub open spec fn text(self) -> Seq<char> {
        match self {
            PulsarAction::UpsertFinalizer => "UpsertFinalizer"@,
            PulsarAction::UpsertAddon => "UpsertAddon"@,
            PulsarAction::UpsertSecret => "UpsertSecret"@,
            PulsarAction::DeleteFinalizer => "DeleteFinalizer"@,
            PulsarAction::DeleteAddon => "DeleteAddon"@,
        }
    }

    /// The action as text.
    pub fn to_string(&self) -> (text: String)
        ensures
            text@ == self.text(),
            text@ == match self {
                PulsarAction::UpsertFinalizer => "UpsertFinalizer"@,
                PulsarAction::UpsertAddon => "UpsertAddon"@,
                PulsarAction::UpsertSecret => "UpsertSecret"@,
                PulsarAction::DeleteFinalizer => "DeleteFinalizer"@,
                PulsarAction::DeleteAddon => "DeleteAddon"@,
            },
    {
        match self {
            PulsarAction::UpsertFinalizer => "UpsertFinalizer".to_owned(),
            PulsarAction::UpsertAddon => "UpsertAddon".to_owned(),
            PulsarAction::UpsertSecret => "UpsertSecret".to_owned(),
            PulsarAction::DeleteFinalizer => "DeleteFinalizer".to_owned(),
            PulsarAction::DeleteAddon => "DeleteAddon".to_owned(),
        }
    }
}

// -----------------------------------------------------------------------------
// ReconcilerError enum

/// The text of an error of the controller that drives the reconciler.
#[derive(Debug)]
pub struct ControllerError {
    pub message: String,
}

/// Why a reconciliation failed.
#[derive(Debug)]
pub enum ReconcilerError {
    Reconcile(String),
    CleverClient(RequestError),
    KubeClient(kube::Error),
    Diff(serde_json::Error),
}

impl From<kube::Error> for ReconcilerError {
    fn from(err: kube::Error) -> (res: Self)
        ensures
            res == Self::KubeClient(err),
    {
        Self::KubeClient(err)
    }
}

impl vstd::std_specs::convert::FromSpecImpl<kube::Error> for ReconcilerError {
    open spec fn obeys_from_spec() -> bool {
        true
    }

    open spec fn from_spec(err: kube::Error) -> Self {
        ReconcilerError::KubeClient(err)
    }
}

impl From<RequestError> for ReconcilerError {
    fn from(err: RequestError) -> (res: Self)
        ensures
            res == Self::CleverClient(err),
    {
        Self::CleverClient(err)
    }
}

impl vstd::std_specs::convert::FromSpecImpl<RequestError> for ReconcilerError {
    open spec fn obeys_from_spec() -> bool {
        true
    }

    open spec fn from_spec(err: RequestError) -> Self {
        ReconcilerError::CleverClient(err)
    }
}

impl From<v2::addon::Error> for ReconcilerError {
    fn from(err: v2::addon::Error) -> (res: Self)
        ensures
            res == Self::CleverClient(RequestError::Addon(err)),
    {
        Self::from(RequestError::from(err))
    }
}

impl vstd::std_specs::convert::FromSpecImpl<v2::addon::Error> for ReconcilerError {
    open spec fn obeys_from_spec() -> bool {
        true
    }

    open spec fn from_spec(err: v2::addon::Error) -> Self {
        ReconcilerError::CleverClient(RequestError::Addon(err))
    }
}

impl From<v4::addon_provider::plan::Error> for ReconcilerError {
    fn from(err: v4::addon_provider::plan::Error) -> (res: Self)
        ensures
            res == Self::CleverClient(RequestError::Plan(err)),
    {
        Self::from(RequestError::from(err))
    }
}

impl vstd::std_specs::convert::FromSpecImpl<v4::addon_provider::plan::Error> for ReconcilerError {
    open spec fn obeys_from_spec() -> bool {
        true
    }

    open spec fn from_spec(err: v4::addon_provider::plan::Error) -> Self {
        ReconcilerError::CleverClient(RequestError::Plan(err))
    }
}

impl From<ControllerError> for ReconcilerError {
    fn from(err: ControllerError) -> (res: Self)
        ensures
            res == Self::Reconcile(err.message),
    {
        Self::Reconcile(err.message)
    }
}

impl vstd::std_specs::convert::FromSpecImpl<ControllerError> for ReconcilerError {
    open spec fn obeys_from_spec() -> bool {
        true
    }

    open spec fn from_spec(err: ControllerError) -> Self {
        ReconcilerError::Reconcile(err.message)
    }
}

impl ReconcilerError {
    /// Whether `text` tells what failed and then what the carried error
    /// displays.
    pub open spec fn reads(self, text: Seq<char>) -> bool {
        match self {
            ReconcilerError::Reconcile(reason) => {
                text == "failed to reconcile resource, "@ + reason@
            },
            ReconcilerError::CleverClient(err) => exists|cause: Seq<char>|
                text == "failed to execute request on clever-cloud api, "@ + cause
                    && #[trigger] err.reads(cause),
            ReconcilerError::KubeClient(err) => exists|cause: String|
                text == "failed to execute request on kubernetes api, "@ + cause@
                    && #[trigger] vstd::string::to_string_from_display_ensures::<kube::Error>(
                    &err,
                    cause,
                ),
            ReconcilerError::Diff(err) => exists|cause: String|
                text == "failed to compute diff between the original and modified object, "@
                    + cause@ && #[trigger] vstd::string::to_string_from_display_ensures::<
                    serde_json::Error,
                >(&err, cause),
        }
    }

    /// The message of the error.
    pub fn message(&self) -> (text: String)
        ensures
            self.reads(text@),
    {
        match self {
            ReconcilerError::Reconcile(reason) => {
                "failed to reconcile resource, ".to_owned().concat(reason.as_str())
            },
            ReconcilerError::CleverClient(err) => {
                let cause: String = err.message();
                "failed to execute request on clever-cloud api, ".to_owned().concat(cause.as_str())
            },
            ReconcilerError::KubeClient(err) => {
                let cause: String = err.to_string();
                "failed to execute request on kubernetes api, ".to_owned().concat(cause.as_str())
            },
            ReconcilerError::Diff(err) => {
                let cause: String = err.to_string();
                "failed to compute diff between the original and modified object, ".to_owned()
                    .concat(cause.as_str())
            },
        }
    }
}

// -----------------------------------------------------------------------------
// Reconciler structure

/// The reconciler of the pulsar custom resource.
#[derive(Clone, Debug)]
pub struct Reconciler {}

impl Default for Reconciler {
    fn default() -> (reconciler: Self)
        ensures
            reconciler == (Reconciler {  }),
    {
        Reconciler {  }
    }
}

impl Reconciler {
    /// Begins to create or to update the addon of the resource: the finalizer
    /// is set, then the addon is created, then its secrets are written.
    pub fn upsert(origin: &Pulsar) -> (stage: Upsert<Pulsar, String, Secrets>)
        ensures
            stage@ == UpsertView::start(origin@),
    {
        Upsert::new(origin)
    }

    /// Begins to delete the addon of the resource: the addon is deleted, then
    /// the finalizer is removed.
    pub fn delete(origin: &Pulsar) -> (stage: Delete<Pulsar, String>)
        ensures
            stage@ == DeleteView::start(origin@),
    {
        Delete::new(origin)
    }
}

} // verus!
