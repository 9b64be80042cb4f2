use clevercloud_operator::svc::clevercloud::RequestError;
use clevercloud_operator::svc::crd::pulsar::delete::Delete;
use clevercloud_operator::svc::crd::pulsar::exchange::{Reply, Request, Secrets};
use clevercloud_operator::svc::crd::pulsar::upsert::Upsert;
use clevercloud_operator::svc::crd::pulsar::{
    ControllerError, Pulsar, PulsarAction, PulsarInstance, PulsarSpec, PulsarStatus, Reconciler,
    ReconcilerError, ADDON_BETA_PLAN, ADDON_FINALIZER,
};
use clevercloud_operator::svc::k8s::ObjectMeta;

type Answer = Reply<Pulsar, String, Secrets>;

fn pulsar() -> Pulsar {
    Pulsar {
        metadata: ObjectMeta {
            name: Some("broker".to_string()),
            namespace: Some("default".to_string()),
            uid: Some("6f1c".to_string()),
            finalizers: None,
        },
        spec: PulsarSpec {
            organisation: "orga_1".to_string(),
            instance: PulsarInstance { region: "par".to_string() },
        },
        status: None,
    }
}

fn protected() -> Pulsar {
    let mut object = pulsar();
    object.metadata.finalizers = Some(vec![ADDON_FINALIZER.to_string()]);
    object
}

fn with_addon(mut object: Pulsar, id: Option<&str>) -> Pulsar {
    object.set_addon_id(id.map(|id| id.to_string()));
    object
}

fn kube_error() -> kube::Error {
    kube::Error::LinesCodecMaxLineLengthExceeded
}

fn json_error() -> serde_json::Error {
    serde_json::from_str::<serde_json::Value>("{").unwrap_err()
}

fn step(stage: Upsert<Pulsar, String, Secrets>, reply: Answer) -> Upsert<Pulsar, String, Secrets> {
    assert!(stage.accepts(&reply));
    stage.advance(reply)
}

fn undo(stage: Delete<Pulsar, String>, reply: Answer) -> Delete<Pulsar, String> {
    assert!(stage.accepts(&reply));
    stage.advance(reply)
}

#[test]
fn constants_are_those_of_the_api() {
    assert_eq!(ADDON_FINALIZER, "api.clever-cloud.com/pulsar");
    assert_eq!(ADDON_BETA_PLAN, "plan_3ad3c5be-5c1e-4dae-bf9a-87120b88fc13");
}

#[test]
fn creation_options_of_the_addon() {
    let opts = pulsar().into();
    assert_eq!(opts.name, "kubernetes_6f1c");
    assert_eq!(opts.region, "par");
    assert_eq!(opts.provider_id, "addon-pulsar");
    assert_eq!(opts.plan, ADDON_BETA_PLAN);
    assert_eq!(opts.options.version, None);
    assert_eq!(opts.options.encryption, None);
}

#[test]
fn addon_identifier_is_read_back() {
    let mut object = pulsar();
    assert_eq!(object.id(), None);
    assert_eq!(object.get_addon_id(), None);
    object.set_addon_id(Some("addon_1".to_string()));
    assert_eq!(object.id(), Some("addon_1".to_string()));
    assert_eq!(object.get_addon_id(), Some("addon_1".to_string()));
    assert_eq!(object.metadata, pulsar().metadata);
    assert_eq!(object.spec, pulsar().spec);
    object.set_addon_id(None);
    assert_eq!(object.get_addon_id(), None);
    assert_eq!(object.status, Some(PulsarStatus { addon: None }));
}

#[test]
fn organisation_and_name() {
    assert_eq!(pulsar().organisation(), "orga_1");
    assert_eq!(pulsar().name(), "kubernetes_6f1c");
}

#[test]
fn addon_names_differ_with_the_identifier() {
    let mut other = pulsar();
    other.metadata.uid = Some("6f1d".to_string());
    assert_ne!(other.name(), pulsar().name());
}

#[test]
fn default_status_has_no_addon() {
    assert_eq!(PulsarStatus::default(), PulsarStatus { addon: None });
}

#[test]
fn clones_are_equal() {
    let object = with_addon(protected(), Some("addon_1"));
    assert_eq!(object.clone(), object);
}

#[test]
fn actions_as_text() {
    assert_eq!(PulsarAction::UpsertFinalizer.to_string(), "UpsertFinalizer");
    assert_eq!(PulsarAction::UpsertAddon.to_string(), "UpsertAddon");
    assert_eq!(PulsarAction::UpsertSecret.to_string(), "UpsertSecret");
    assert_eq!(PulsarAction::DeleteFinalizer.to_string(), "DeleteFinalizer");
    assert_eq!(PulsarAction::DeleteAddon.to_string(), "DeleteAddon");
}

#[test]
fn actions_read_as_their_debug_text() {
    let actions = [
        PulsarAction::UpsertFinalizer,
        PulsarAction::UpsertAddon,
        PulsarAction::UpsertSecret,
        PulsarAction::DeleteFinalizer,
        PulsarAction::DeleteAddon,
    ];
    for a in &actions {
        assert_eq!(a.to_string(), format!("{:?}", a));
        for b in &actions {
            assert_eq!(a.to_string() == b.to_string(), a == b);
        }
    }
}

#[test]
fn errors_are_converted_and_told() {
    let err = ReconcilerError::from(kube_error());
    assert!(matches!(err, ReconcilerError::KubeClient(_)));
    assert_eq!(
        err.message(),
        "failed to execute request on kubernetes api, Error finding newline character"
    );

    let err = ReconcilerError::from(ControllerError { message: "event queue error".to_string() });
    assert_eq!(err.message(), "failed to reconcile resource, event queue error");

    let err = ReconcilerError::Diff(json_error());
    assert_eq!(
        err.message(),
        format!(
            "failed to compute diff between the original and modified object, {}",
            json_error()
        )
    );
}

#[test]
fn api_errors_are_converted_and_told() {
    let cause = || {
        clevercloud_sdk::v2::addon::Error::List(
            "orga_1".to_string(),
            clevercloud_sdk::oauth10a::ClientError::Serialize(json_error()),
        )
    };
    let err = ReconcilerError::from(cause());
    assert!(matches!(err, ReconcilerError::CleverClient(RequestError::Addon(_))));
    assert_eq!(
        err.message(),
        format!("failed to execute request on clever-cloud api, {}", cause())
    );

    let cause = || {
        clevercloud_sdk::v4::addon_provider::plan::Error::List(
            clevercloud_sdk::v4::addon_provider::AddonProviderId::Pulsar,
            "orga_1".to_string(),
            clevercloud_sdk::oauth10a::ClientError::Serialize(json_error()),
        )
    };
    let err = ReconcilerError::from(cause());
    assert!(matches!(err, ReconcilerError::CleverClient(RequestError::Plan(_))));
    assert_eq!(
        err.message(),
        format!("failed to execute request on clever-cloud api, {}", cause())
    );
    let err = ReconcilerError::from(RequestError::from(cause()));
    assert!(matches!(err, ReconcilerError::CleverClient(RequestError::Plan(_))));
}

#[test]
fn upsert_with_secrets() {
    let origin = pulsar();
    let stage = Reconciler::upsert(&origin);
    let expected = protected();
    assert_eq!(
        stage.request(),
        Some(Request::Diff { origin: &origin, modified: &expected })
    );

    let stage = step(stage, Reply::Diffed(Ok("p1".to_string())));
    assert_eq!(
        stage.request(),
        Some(Request::Patch { object: &expected, patch: "p1".to_string() })
    );

    let stage = step(stage, Reply::Patched(Ok(protected())));
    assert_eq!(
        stage.request(),
        Some(Request::Record {
            object: &expected,
            action: PulsarAction::UpsertFinalizer,
            message: "Create finalizer 'api.clever-cloud.com/pulsar'".to_string(),
        })
    );

    let stage = step(stage, Reply::Recorded(Ok(())));
    assert_eq!(stage.request(), Some(Request::UpsertAddon { object: &expected }));

    let stage = step(stage, Reply::AddonUpserted(Ok("addon_1".to_string())));
    let expected = with_addon(protected(), Some("addon_1"));
    assert_eq!(
        stage.request(),
        Some(Request::Diff { origin: &origin, modified: &expected })
    );

    let stage = step(stage, Reply::Diffed(Ok("p2".to_string())));
    assert_eq!(
        stage.request(),
        Some(Request::Patch { object: &expected, patch: "p2".to_string() })
    );

    // the cluster does not take the status through the resource
    let stage = step(stage, Reply::Patched(Ok(protected())));
    let taken = protected();
    assert_eq!(
        stage.request(),
        Some(Request::PatchStatus { object: &taken, patch: "p2".to_string() })
    );

    let stage = step(stage, Reply::Patched(Ok(with_addon(protected(), Some("addon_1")))));
    assert_eq!(
        stage.request(),
        Some(Request::Record {
            object: &expected,
            action: PulsarAction::UpsertAddon,
            message: "Create managed pulsar instance on clever-cloud 'addon_1'".to_string(),
        })
    );

    let stage = step(stage, Reply::Recorded(Ok(())));
    assert_eq!(stage.request(), Some(Request::ReadSecrets { object: &expected }));

    let secrets = vec![("ADDON_PULSAR_TOKEN".to_string(), "t".to_string())];
    let stage = step(stage, Reply::SecretsRead(Ok(Some(secrets.clone()))));
    assert_eq!(
        stage.request(),
        Some(Request::UpsertSecret { owner: &expected, secrets: &secrets })
    );

    let stage = step(stage, Reply::SecretUpserted(Ok("broker-secrets".to_string())));
    assert_eq!(
        stage.request(),
        Some(Request::Record {
            object: &expected,
            action: PulsarAction::UpsertSecret,
            message: "Create kubernetes secret 'broker-secrets'".to_string(),
        })
    );

    let stage = step(stage, Reply::Recorded(Ok(())));
    assert_eq!(stage.request(), None);
    assert!(matches!(stage, Upsert::Finished(Ok(()))));
}

fn upsert_until_secrets() -> Upsert<Pulsar, String, Secrets> {
    let mut stage = Reconciler::upsert(&pulsar());
    for reply in [
        Reply::Diffed(Ok("p1".to_string())),
        Reply::Patched(Ok(protected())),
        Reply::Recorded(Ok(())),
        Reply::AddonUpserted(Ok("addon_1".to_string())),
        Reply::Diffed(Ok("p2".to_string())),
        Reply::Patched(Ok(with_addon(protected(), Some("addon_1")))),
        Reply::Patched(Ok(with_addon(protected(), Some("addon_1")))),
        Reply::Recorded(Ok(())),
    ] {
        stage = step(stage, reply);
    }
    stage
}

#[test]
fn upsert_without_secrets_writes_none() {
    let stage = step(upsert_until_secrets(), Reply::SecretsRead(Ok(None)));
    assert!(matches!(stage, Upsert::Finished(Ok(()))));
}

#[test]
fn upsert_keeps_the_finalizers_that_are_there() {
    let mut origin = pulsar();
    origin.metadata.finalizers = Some(vec!["other".to_string()]);
    let stage = Reconciler::upsert(&origin);
    let mut expected = origin.clone();
    expected.metadata.finalizers = Some(vec!["other".to_string(), ADDON_FINALIZER.to_string()]);
    assert_eq!(
        stage.request(),
        Some(Request::Diff { origin: &origin, modified: &expected })
    );
}

#[test]
fn upsert_of_an_upserted_resource_changes_nothing() {
    let origin = with_addon(protected(), Some("addon_1"));
    let stage = Reconciler::upsert(&origin);
    assert_eq!(
        stage.request(),
        Some(Request::Diff { origin: &origin, modified: &origin })
    );
    let stage = step(stage, Reply::Diffed(Ok("[]".to_string())));
    let stage = step(stage, Reply::Patched(Ok(origin.clone())));
    let stage = step(stage, Reply::Recorded(Ok(())));
    let stage = step(stage, Reply::AddonUpserted(Ok("addon_1".to_string())));
    assert_eq!(
        stage.request(),
        Some(Request::Diff { origin: &origin, modified: &origin })
    );
}

#[test]
fn upsert_fails_with_the_request_that_fails() {
    let stage = step(Reconciler::upsert(&pulsar()), Reply::Diffed(Err(json_error())));
    assert!(matches!(stage, Upsert::Finished(Err(ReconcilerError::Diff(_)))));

    let stage = step(Reconciler::upsert(&pulsar()), Reply::Diffed(Ok("p".to_string())));
    let stage = step(stage, Reply::Patched(Err(kube_error())));
    assert!(matches!(stage, Upsert::Finished(Err(ReconcilerError::KubeClient(_)))));

    let stage = step(Reconciler::upsert(&pulsar()), Reply::Diffed(Ok("p".to_string())));
    let stage = step(stage, Reply::Patched(Ok(protected())));
    let stage = step(stage, Reply::Recorded(Err(kube_error())));
    assert!(matches!(stage, Upsert::Finished(Err(ReconcilerError::KubeClient(_)))));

    let stage = step(Reconciler::upsert(&pulsar()), Reply::Diffed(Ok("p".to_string())));
    let stage = step(stage, Reply::Patched(Ok(protected())));
    let stage = step(stage, Reply::Recorded(Ok(())));
    let stage = step(
        stage,
        Reply::AddonUpserted(Err(ReconcilerError::Reconcile("no plan".to_string()))),
    );
    match stage {
        Upsert::Finished(Err(ReconcilerError::Reconcile(reason))) => assert_eq!(reason, "no plan"),
        _ => panic!("the upsert goes on"),
    }

    let stage = step(
        upsert_until_secrets(),
        Reply::SecretsRead(Err(ReconcilerError::Reconcile("no secret".to_string()))),
    );
    assert!(matches!(stage, Upsert::Finished(Err(ReconcilerError::Reconcile(_)))));

    let stage = step(upsert_until_secrets(), Reply::SecretsRead(Ok(Some(Vec::new()))));
    let stage = step(stage, Reply::SecretUpserted(Err(kube_error())));
    assert!(matches!(stage, Upsert::Finished(Err(ReconcilerError::KubeClient(_)))));
}

#[test]
fn replies_to_other_requests_are_not_accepted() {
    let stage = Reconciler::upsert(&pulsar());
    assert!(!stage.accepts(&Reply::Recorded(Ok(()))));
    assert!(!stage.accepts(&Reply::Patched(Ok(pulsar()))));
    let stage = step(stage, Reply::Diffed(Err(json_error())));
    assert!(!stage.accepts(&Reply::Diffed(Ok("p".to_string()))));

    let stage = Reconciler::delete(&pulsar());
    assert!(!stage.accepts(&Reply::AddonUpserted(Ok("addon_1".to_string()))));
    assert!(stage.accepts(&Reply::AddonDeleted(Ok(()))));
}

#[test]
fn delete_undoes_upsert() {
    let origin = with_addon(protected(), Some("addon_1"));
    let stage = Reconciler::delete(&origin);
    assert_eq!(stage.request(), Some(Request::DeleteAddon { object: &origin }));

    let stage = undo(stage, Reply::AddonDeleted(Ok(())));
    let expected = with_addon(protected(), None);
    assert_eq!(
        stage.request(),
        Some(Request::Diff { origin: &origin, modified: &expected })
    );

    let stage = undo(stage, Reply::Diffed(Ok("p1".to_string())));
    assert_eq!(
        stage.request(),
        Some(Request::Patch { object: &expected, patch: "p1".to_string() })
    );

    let stage = undo(stage, Reply::Patched(Ok(with_addon(protected(), None))));
    assert_eq!(
        stage.request(),
        Some(Request::PatchStatus { object: &expected, patch: "p1".to_string() })
    );

    let stage = undo(stage, Reply::Patched(Ok(with_addon(protected(), None))));
    assert_eq!(
        stage.request(),
        Some(Request::Record {
            object: &expected,
            action: PulsarAction::DeleteAddon,
            message: "Delete managed pulsar instance on clever-cloud".to_string(),
        })
    );

    let stage = undo(stage, Reply::Recorded(Ok(())));
    let mut expected = with_addon(protected(), None);
    expected.metadata.finalizers = Some(Vec::new());
    assert_eq!(
        stage.request(),
        Some(Request::Record {
            object: &expected,
            action: PulsarAction::DeleteFinalizer,
            message: "Delete finalizer from custom resource".to_string(),
        })
    );

    let stage = undo(stage, Reply::Recorded(Ok(())));
    assert_eq!(
        stage.request(),
        Some(Request::Diff { origin: &origin, modified: &expected })
    );

    let stage = undo(stage, Reply::Diffed(Ok("p2".to_string())));
    assert_eq!(
        stage.request(),
        Some(Request::Patch { object: &expected, patch: "p2".to_string() })
    );

    let stage = undo(stage, Reply::Patched(Ok(expected.clone())));
    assert_eq!(stage.request(), None);
    assert!(matches!(stage, Delete::Finished(Ok(()))));
}

#[test]
fn finalizer_stays_where_the_addon_is_not_deleted() {
    let stage = undo(
        Reconciler::delete(&protected()),
        Reply::AddonDeleted(Err(ReconcilerError::from(kube_error()))),
    );
    assert!(matches!(stage, Delete::Finished(Err(ReconcilerError::KubeClient(_)))));
    assert_eq!(stage.request(), None);
}

#[test]
fn delete_fails_with_the_request_that_fails() {
    let stage = undo(Reconciler::delete(&protected()), Reply::AddonDeleted(Ok(())));
    let stage = undo(stage, Reply::Diffed(Err(json_error())));
    assert!(matches!(stage, Delete::Finished(Err(ReconcilerError::Diff(_)))));
}
