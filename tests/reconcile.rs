use kubit::apply::{ApplyOutcome, LiveState, ManifestObject};
use kubit::artifact::{select_image_manifest, ImageManifest, OciManifest};
use kubit::controller::{
    begin, publish_status, summarize, Action, AppInstance, StatusConfigMap, StatusRecord,
};
use kubit::credentials::{
    auth_for, docker_config_payload, resolve_auth, select_pull_secret, DockerConfig, PullSecret,
    RegistryAuth, RegistryEntry,
};
use kubit::delete::{clean_up, cleanup_verdict, phase, CleanupVerdict, Phase};
use kubit::local::DryRun;
use kubit::{ApiFailure, Error, FinalizerFailure, Retry};

fn obj(id: &str, body: &str) -> ManifestObject {
    ManifestObject { id: id.to_string(), body: body.to_string() }
}

fn document() -> Vec<ManifestObject> {
    vec![
        obj("apps/v1/Deployment/demo/app", "{\"replicas\":2}"),
        obj("v1/Service/demo/app", "{\"port\":80}"),
    ]
}

fn instance(secrets: Vec<&str>, mode: DryRun) -> AppInstance {
    AppInstance {
        namespace: Some("demo".to_string()),
        reference: "registry.example/app:v1".to_string(),
        pull_secrets: secrets.into_iter().map(|s| s.to_string()).collect(),
        dry_run: mode,
        has_finalizer: true,
        deletion_requested: false,
    }
}

fn empty_status() -> StatusConfigMap {
    StatusConfigMap::Recorded(StatusRecord { last_apply: None, last_error: None, applied: vec![] })
}

fn secret(kind: Option<&str>, payload: Option<&[u8]>) -> PullSecret {
    PullSecret {
        secret_type: kind.map(|s| s.to_string()),
        docker_config_json: payload.map(|p| p.to_vec()),
    }
}

#[test]
fn real_apply_creates_objects_and_records_status() {
    let app = instance(vec![], DryRun::Off);
    assert!(matches!(begin(&app), Ok(Action::PullArtifact(RegistryAuth::Anonymous))));
    let manifest = OciManifest::Image(ImageManifest {
        config_digest: "sha256:c0".to_string(),
        layer_digests: vec!["sha256:l1".to_string()],
    });
    let image = select_image_manifest(manifest).unwrap();
    assert_eq!(image.layer_digests.len(), 1);
    let mut live = LiveState::new();
    let doc = document();
    let outs = live.apply(&doc, DryRun::Off).unwrap();
    assert_eq!(outs, vec![ApplyOutcome::Created, ApplyOutcome::Created]);
    assert_eq!(live.get(&doc[0].id), Some(&doc[0].body));
    assert_eq!(live.get(&doc[1].id), Some(&doc[1].body));
    let summary = summarize(&outs, DryRun::Off);
    assert_eq!(summary.objects, 2);
    assert_eq!(summary.changes, 2);
    assert!(!summary.dry_run);
    let rec = publish_status(empty_status(), summary, &doc).unwrap();
    assert_eq!(rec.last_apply, Some(summary));
    assert!(rec.last_error.is_none());
    assert_eq!(rec.applied, vec![doc[0].id.clone(), doc[1].id.clone()]);
}

#[test]
fn client_dry_run_leaves_cluster_alone() {
    let app = instance(vec![], DryRun::Client);
    assert!(matches!(begin(&app), Ok(Action::PullArtifact(RegistryAuth::Anonymous))));
    let mut live = LiveState::new();
    let doc = document();
    let outs = live.apply(&doc, DryRun::Client).unwrap();
    assert_eq!(outs, vec![ApplyOutcome::WouldCreate, ApplyOutcome::WouldCreate]);
    assert_eq!(live.get(&doc[0].id), None);
    assert_eq!(live.get(&doc[1].id), None);
    let dry = summarize(&outs, DryRun::Client);
    let mut real_live = LiveState::new();
    let real = summarize(&real_live.apply(&doc, DryRun::Off).unwrap(), DryRun::Off);
    assert_eq!(dry.objects, real.objects);
    assert_eq!(dry.changes, real.changes);
    assert!(dry.dry_run);
    let rec = publish_status(empty_status(), dry, &doc).unwrap();
    assert_eq!(rec.last_apply, Some(dry));
    assert!(rec.applied.is_empty());
}

#[test]
fn deleting_instance_removes_applied_objects() {
    let mut live = LiveState::new();
    let doc = document();
    live.apply(&doc, DryRun::Off).unwrap();
    live.put(obj("v1/ConfigMap/demo/other", "{}"));
    let rec = publish_status(empty_status(), summarize(&vec![], DryRun::Off), &doc).unwrap();
    let mut app = instance(vec![], DryRun::Off);
    app.deletion_requested = true;
    assert_eq!(phase(app.has_finalizer, app.deletion_requested), Phase::Deleting);
    assert!(matches!(begin(&app), Ok(Action::CleanUp)));
    clean_up(&mut live, &rec.applied);
    assert_eq!(live.get(&doc[0].id), None);
    assert_eq!(live.get(&doc[1].id), None);
    assert!(live.get(&"v1/ConfigMap/demo/other".to_string()).is_some());
    assert!(matches!(cleanup_verdict(0, 10, 60_000), Ok(CleanupVerdict::ReleaseFinalizer)));
    app.has_finalizer = false;
    assert_eq!(phase(app.has_finalizer, app.deletion_requested), Phase::Released);
    assert!(matches!(begin(&app), Ok(Action::Nothing)));
}

#[test]
fn cleanup_of_absent_objects_succeeds() {
    let mut live = LiveState::new();
    clean_up(&mut live, &vec!["v1/Service/demo/app".to_string()]);
    assert_eq!(live.get(&"v1/Service/demo/app".to_string()), None);
}

#[test]
fn second_apply_of_same_document_is_a_no_op() {
    let mut live = LiveState::new();
    let doc = document();
    live.apply(&doc, DryRun::Off).unwrap();
    let outs = live.apply(&doc, DryRun::Off).unwrap();
    assert_eq!(outs, vec![ApplyOutcome::Unchanged, ApplyOutcome::Unchanged]);
    assert_eq!(summarize(&outs, DryRun::Off).changes, 0);
    assert_eq!(live.get(&doc[0].id), Some(&doc[0].body));
}

#[test]
fn changed_body_is_updated() {
    let mut live = LiveState::new();
    live.apply(&document(), DryRun::Off).unwrap();
    let changed = vec![obj("v1/Service/demo/app", "{\"port\":8080}")];
    assert_eq!(live.apply(&changed, DryRun::Server).unwrap(), vec![ApplyOutcome::WouldUpdate]);
    assert_eq!(live.get(&changed[0].id).unwrap(), "{\"port\":80}");
    assert_eq!(live.apply(&changed, DryRun::Off).unwrap(), vec![ApplyOutcome::Updated]);
    assert_eq!(live.get(&changed[0].id).unwrap(), "{\"port\":8080}");
}

#[test]
fn unsupported_dry_run_touches_nothing() {
    let mut live = LiveState::new();
    let r = live.apply(&document(), DryRun::Render);
    assert!(matches!(r, Err(Error::UnsupportedDryRunOption(DryRun::Render))));
    assert_eq!(live.get(&document()[0].id), None);
    let app = instance(vec![], DryRun::Render);
    assert!(matches!(begin(&app), Err(Error::UnsupportedDryRunOption(DryRun::Render))));
}

#[test]
fn index_manifest_is_rejected() {
    let index = OciManifest::ImageIndex(vec!["sha256:amd64".to_string(), "sha256:arm64".to_string()]);
    assert!(matches!(select_image_manifest(index), Err(Error::UnsupportedManifestIndex)));
    let empty = OciManifest::ImageIndex(vec![]);
    assert!(matches!(select_image_manifest(empty), Err(Error::UnsupportedManifestIndex)));
}

#[test]
fn two_pull_secrets_fail_before_pull() {
    let app = instance(vec!["a", "b"], DryRun::Off);
    assert!(matches!(begin(&app), Err(Error::UnsupportedMultipleImagePullSecrets)));
    let r = select_pull_secret(&Some("demo".to_string()), &vec!["a".to_string(), "b".to_string()]);
    assert!(matches!(r, Err(Error::UnsupportedMultipleImagePullSecrets)));
}

#[test]
fn one_pull_secret_is_fetched_first() {
    let app = instance(vec!["regcred"], DryRun::Off);
    match begin(&app) {
        Ok(Action::FetchSecret(name)) => assert_eq!(name, "regcred"),
        _ => panic!("expected a secret fetch"),
    }
}

#[test]
fn missing_namespace_is_reported() {
    let mut app = instance(vec!["regcred"], DryRun::Off);
    app.namespace = None;
    assert!(matches!(begin(&app), Err(Error::NamespaceRequired)));
    assert!(matches!(select_pull_secret(&None, &vec![]), Err(Error::NamespaceRequired)));
}

#[test]
fn wrong_secret_type_echoes_observed_type() {
    let s = secret(Some("Opaque"), Some(b"{}"));
    match docker_config_payload(&s) {
        Err(Error::BadImagePullSecretType(t)) => assert_eq!(t, Some("Opaque".to_string())),
        _ => panic!("expected a type mismatch"),
    }
    let untyped = secret(None, None);
    assert!(matches!(docker_config_payload(&untyped), Err(Error::BadImagePullSecretType(None))));
}

#[test]
fn secret_without_payload_is_reported() {
    let s = secret(Some("kubernetes.io/dockerconfigjson"), None);
    assert!(matches!(docker_config_payload(&s), Err(Error::NoDockerConfigJsonInImagePullSecret)));
    let good = secret(Some("kubernetes.io/dockerconfigjson"), Some(b"{\"auths\":{}}"));
    assert_eq!(docker_config_payload(&good).unwrap(), &b"{\"auths\":{}}".to_vec());
}

fn entry(registry: &str, user: &str) -> RegistryEntry {
    RegistryEntry {
        registry: registry.to_string(),
        username: user.to_string(),
        password: format!("{}-pw", user),
    }
}

#[test]
fn first_matching_registry_entry_wins() {
    let config = DockerConfig {
        auths: vec![entry("other.example", "x"), entry("registry.example", "a"), entry("registry.example", "b")],
    };
    match auth_for(&config, &"registry.example".to_string()) {
        RegistryAuth::Basic(u, p) => {
            assert_eq!(u, "a");
            assert_eq!(p, "a-pw");
        }
        RegistryAuth::Anonymous => panic!("expected credentials"),
    }
    assert!(matches!(auth_for(&config, &"none.example".to_string()), RegistryAuth::Anonymous));
}

#[test]
fn undecodable_docker_config_is_reported() {
    let r = resolve_auth(Err("expected value at line 1".to_string()), &"registry.example".to_string());
    match r {
        Err(Error::DecodeDockerConfig(m)) => assert_eq!(m, "expected value at line 1"),
        _ => panic!("expected a decode error"),
    }
}

#[test]
fn deletion_past_window_times_out_and_keeps_finalizer() {
    assert!(matches!(cleanup_verdict(3, 60_000, 60_000), Err(Error::ResourceDeletionTimeout)));
    assert!(matches!(cleanup_verdict(1, 90_000, 60_000), Err(Error::ResourceDeletionTimeout)));
    assert!(matches!(cleanup_verdict(1, 100, 60_000), Ok(CleanupVerdict::Continue)));
    assert_eq!(phase(true, true), Phase::Deleting);
}

#[test]
fn status_config_map_must_exist_and_parse() {
    let doc = document();
    let s = summarize(&vec![], DryRun::Off);
    assert!(matches!(publish_status(StatusConfigMap::Missing, s, &doc), Err(Error::ConfigMapRequired)));
    match publish_status(StatusConfigMap::Malformed("eof".to_string()), s, &doc) {
        Err(Error::InvalidConfigMapStatus(m)) => assert_eq!(m, "eof"),
        _ => panic!("expected a status error"),
    }
    match publish_status(StatusConfigMap::Foreign("no spec".to_string()), s, &doc) {
        Err(Error::InvalidConfigMap(m)) => assert_eq!(m, "no spec"),
        _ => panic!("expected a config map error"),
    }
}

#[test]
fn retry_policy_follows_error_kind() {
    let api = || ApiFailure { discovery: false, message: "conn refused".to_string() };
    assert_eq!(Error::from_api(api()).retry(), Retry::Backoff);
    assert_eq!(Error::ResourceDeletionTimeout.retry(), Retry::Backoff);
    assert_eq!(Error::OCI("503".to_string()).retry(), Retry::Backoff);
    assert_eq!(Error::UnsupportedManifestIndex.retry(), Retry::Permanent);
    assert_eq!(Error::DecodePackageConfig("x".to_string()).retry(), Retry::Permanent);
    assert_eq!(Error::UnsupportedDryRunOption(DryRun::Render).retry(), Retry::Permanent);
    assert_eq!(Error::NamespaceRequired.retry(), Retry::Permanent);
    assert_eq!(Error::BadImagePullSecretType(None).retry(), Retry::Permanent);
    let wrapped = Error::FinalizerError(Box::new(FinalizerFailure::CleanupFailed(
        Error::ResourceDeletionTimeout,
    )));
    assert_eq!(wrapped.retry(), Retry::Backoff);
    let wrapped = Error::FinalizerError(Box::new(FinalizerFailure::ApplyFailed(
        Error::ConfigMapRequired,
    )));
    assert_eq!(wrapped.retry(), Retry::Permanent);
    let remove = Error::FinalizerError(Box::new(FinalizerFailure::RemoveFinalizer(api())));
    assert_eq!(remove.retry(), Retry::Backoff);
    let unnamed = Error::FinalizerError(Box::new(FinalizerFailure::UnnamedObject));
    assert_eq!(unnamed.retry(), Retry::Permanent);
}

#[test]
fn package_config_decode_failure_is_reported() {
    let r: Result<u32, Error> = kubit::artifact::package_config(Err("trailing comma".to_string()));
    match r {
        Err(Error::DecodePackageConfig(m)) => assert_eq!(m, "trailing comma"),
        _ => panic!("expected a decode error"),
    }
    assert_eq!(kubit::artifact::package_config::<u32>(Ok(7)).unwrap(), 7);
}

#[test]
fn removed_object_is_gone_and_others_stay() {
    let mut live = LiveState::new();
    live.apply(&document(), DryRun::Off).unwrap();
    live.remove(&"v1/Service/demo/app".to_string());
    assert_eq!(live.get(&"v1/Service/demo/app".to_string()), None);
    assert!(live.get(&"apps/v1/Deployment/demo/app".to_string()).is_some());
    let copy = live.copy();
    assert!(copy.get(&"apps/v1/Deployment/demo/app".to_string()).is_some());
}

fn registry_config() -> DockerConfig {
    DockerConfig { auths: vec![entry("docker.io", "d"), entry("registry.example", "r")] }
}

#[test]
fn credentials_follow_the_reference_registry() {
    let r = kubit::credentials::registry_auth(&"registry.example/app:v1".to_string(), Ok(registry_config()));
    match r {
        Ok(RegistryAuth::Basic(u, _)) => assert_eq!(u, "r"),
        _ => panic!("expected the registry's credentials"),
    }
    let other = kubit::credentials::registry_auth(&"quay.io/team/app:v1".to_string(), Ok(registry_config()));
    assert!(matches!(other, Ok(RegistryAuth::Anonymous)));
}

#[test]
fn malformed_reference_is_a_parse_error() {
    let empty = kubit::credentials::registry_auth(&"".to_string(), Ok(registry_config()));
    assert!(matches!(empty, Err(Error::OCIParseError(_))));
    let bad = kubit::credentials::registry_auth(&"registry.example/App:v1".to_string(), Ok(registry_config()));
    assert!(matches!(bad, Err(Error::OCIParseError(_))));
    let mut app = instance(vec![], DryRun::Off);
    app.reference = "".to_string();
    assert!(matches!(begin(&app), Err(Error::OCIParseError(_))));
}
