use overrides::model::{Pod, Service};
use overrides::reconcile::{
    finalizer_state, finalizers_with_token, finalizers_without, pod_selector, service_finalizer_name, FinalizerState,
};
use overrides::{
    controller_owner_ref, dr_for_versions, error_policy, svc_versions, vs_for_versions, Action, Command, Outcome,
    OverridesError, Phase, Reconciler,
};

fn service(ns: &str, name: &str, selector: Option<Vec<(&str, &str)>>) -> Service {
    Service {
        name: Some(name.to_string()),
        namespace: Some(ns.to_string()),
        uid: Some(format!("uid-{}", name)),
        selector: selector.map(|s| s.into_iter().map(|(k, v)| (k.to_string(), v.to_string())).collect()),
        finalizers: vec![],
        deleting: false,
    }
}

fn finalized(mut svc: Service) -> Service {
    svc.finalizers = vec!["other/keep".to_string(), service_finalizer_name()];
    svc
}

fn pod(ns: &str, name: &str, labels: &[(&str, &str)]) -> Pod {
    Pod {
        name: Some(name.to_string()),
        namespace: Some(ns.to_string()),
        labels: labels.iter().map(|(k, v)| (k.to_string(), v.to_string())).collect(),
    }
}

fn api_error() -> kube::Error {
    kube::Error::Api(kube::error::ErrorResponse {
        status: "Failure".to_string(),
        message: "unavailable".to_string(),
        reason: "ServiceUnavailable".to_string(),
        code: 503,
    })
}

fn is_finish_ok(c: &Command, a: Action) -> bool {
    matches!(c, Command::Finish(Ok(x)) if *x == a)
}

#[test]
fn finalizer_token_value() {
    assert_eq!(service_finalizer_name(), "overrides.mt165.co.uk/Service");
}

#[test]
fn finalizer_states() {
    let live = service("demo", "web", None);
    assert_eq!(finalizer_state(&live), FinalizerState::NoFinalizerLive);
    let fin = finalized(service("demo", "web", None));
    assert_eq!(finalizer_state(&fin), FinalizerState::FinalizedLive);
    let mut del = fin.clone();
    del.deleting = true;
    assert_eq!(finalizer_state(&del), FinalizerState::FinalizedDeleting);
    let mut gone = live.clone();
    gone.deleting = true;
    assert_eq!(finalizer_state(&gone), FinalizerState::NoFinalizerDeleting);
}

#[test]
fn pod_selector_needs_non_empty_selector() {
    assert_eq!(pod_selector(&service("demo", "web", Some(vec![("app", "web")]))), Some("app=web".to_string()));
    assert_eq!(pod_selector(&service("demo", "web", Some(vec![]))), None);
    assert_eq!(pod_selector(&service("default", "kubernetes", None)), None);
}

#[test]
fn versions_in_listing_order() {
    let pods = vec![
        pod("demo", "a", &[("app", "web"), ("version", "v2")]),
        pod("demo", "b", &[("app", "web"), ("version", "v1")]),
        pod("demo", "c", &[("app", "web"), ("version", "v3")]),
    ];
    assert_eq!(svc_versions(&pods), vec!["v2", "v1", "v3"]);
}

#[test]
fn pods_without_version_are_skipped() {
    let pods = vec![
        pod("demo", "a", &[("app", "web")]),
        pod("demo", "b", &[("app", "web"), ("version", "v1")]),
    ];
    assert_eq!(svc_versions(&pods), vec!["v1"]);
    assert!(svc_versions(&[]).is_empty());
}

#[test]
fn new_service_gets_finalizer_then_resources() {
    let svc = service("demo", "web", Some(vec![("app", "web")]));
    let (mut r, c) = Reconciler::start(svc.clone());
    assert!(matches!(c, Command::AddFinalizer));
    let c = r.step(Outcome::Done);
    match c {
        Command::ListPods(sel) => assert_eq!(sel, "app=web"),
        other => panic!("unexpected {:?}", other),
    }
    assert_eq!(r.phase, Phase::ListingPods);
    let pods = vec![pod("demo", "web-1", &[("app", "web"), ("version", "v1")])];
    let c = r.step(Outcome::PodsListed(pods));
    let expected = dr_for_versions(&svc, &["v1".to_string()], controller_owner_ref(&svc));
    match c {
        Command::ApplyDestinationRule(dr) => assert_eq!(format!("{:?}", dr), format!("{:?}", expected)),
        other => panic!("unexpected {:?}", other),
    }
    let c = r.step(Outcome::Done);
    let expected = vs_for_versions(&svc, &["v1".to_string()], controller_owner_ref(&svc));
    match c {
        Command::ApplyVirtualService(vs) => {
            assert_eq!(format!("{:?}", vs), format!("{:?}", expected));
            assert_eq!(vs.http.len(), 2);
        }
        other => panic!("unexpected {:?}", other),
    }
    let c = r.step(Outcome::Done);
    match c {
        Command::PublishEvent(e) => {
            assert_eq!(e.reason, "Created Overrides");
            assert_eq!(e.action, "Creating override resources");
            assert_eq!(e.note, "Creating DestinationRule and VirtualService");
        }
        other => panic!("unexpected {:?}", other),
    }
    let c = r.step(Outcome::Done);
    assert!(is_finish_ok(&c, Action::RequeueAfter(300)));
    assert_eq!(r.phase, Phase::Finished);
}

#[test]
fn kubernetes_default_service_is_left_alone() {
    let svc = service("default", "kubernetes", None);
    let (mut r, c) = Reconciler::start(svc);
    assert!(matches!(c, Command::AddFinalizer));
    let c = r.step(Outcome::Done);
    assert!(is_finish_ok(&c, Action::AwaitChange));

    let (_, c) = Reconciler::start(finalized(service("default", "kubernetes", None)));
    assert!(is_finish_ok(&c, Action::AwaitChange));
    let (_, c) = Reconciler::start(finalized(service("default", "kubernetes", Some(vec![]))));
    assert!(is_finish_ok(&c, Action::AwaitChange));
}

#[test]
fn deleted_service_releases_finalizer_after_cleanup() {
    let mut svc = finalized(service("demo", "web", Some(vec![("app", "web")])));
    svc.deleting = true;
    let (mut r, c) = Reconciler::start(svc.clone());
    assert!(matches!(c, Command::RemoveFinalizer(1)));
    let c = r.step(Outcome::Done);
    assert!(is_finish_ok(&c, Action::AwaitChange));

    let (mut r, _) = Reconciler::start(svc);
    let c = r.step(Outcome::Failed(api_error()));
    assert!(matches!(c, Command::Finish(Err(OverridesError::FinalizerFailed(_)))));
}

#[test]
fn deleted_service_without_finalizer_is_done() {
    let mut svc = service("demo", "web", Some(vec![("app", "web")]));
    svc.deleting = true;
    let (r, c) = Reconciler::start(svc);
    assert!(is_finish_ok(&c, Action::AwaitChange));
    assert_eq!(r.phase, Phase::Finished);
}

#[test]
fn edited_destination_rule_is_reapplied() {
    let svc = finalized(service("demo", "web", Some(vec![("app", "web")])));
    let pods = || vec![pod("demo", "a", &[("version", "v1")]), pod("demo", "b", &[("version", "v2")])];
    let mut applied = vec![];
    for _ in 0..2 {
        let (mut r, c) = Reconciler::start(svc.clone());
        assert!(matches!(c, Command::ListPods(_)));
        match r.step(Outcome::PodsListed(pods())) {
            Command::ApplyDestinationRule(dr) => applied.push(format!("{:?}", dr)),
            other => panic!("unexpected {:?}", other),
        }
    }
    assert_eq!(applied[0], applied[1]);
    let expected = dr_for_versions(&svc, &["v1".to_string(), "v2".to_string()], controller_owner_ref(&svc));
    assert_eq!(applied[0], format!("{:?}", expected));
}

#[test]
fn transient_list_failure_then_success() {
    let svc = finalized(service("demo", "web", Some(vec![("app", "web")])));
    let (mut r, _) = Reconciler::start(svc.clone());
    let c = r.step(Outcome::Failed(api_error()));
    let mut failures = 0;
    match c {
        Command::Finish(Err(e)) => {
            assert!(matches!(e, OverridesError::ListResourcesFailed(_)));
            failures += 1;
            assert_eq!(error_policy(&e), Action::RequeueAfter(1));
        }
        other => panic!("unexpected {:?}", other),
    }
    assert_eq!(failures, 1);

    let (mut r, _) = Reconciler::start(svc);
    assert!(matches!(r.step(Outcome::PodsListed(vec![])), Command::ApplyDestinationRule(_)));
    assert!(matches!(r.step(Outcome::Done), Command::ApplyVirtualService(_)));
    assert!(matches!(r.step(Outcome::Done), Command::PublishEvent(_)));
    assert!(is_finish_ok(&r.step(Outcome::Done), Action::RequeueAfter(300)));
}

#[test]
fn apply_and_publish_failures() {
    let svc = finalized(service("demo", "web", Some(vec![("app", "web")])));
    let (mut r, _) = Reconciler::start(svc.clone());
    r.step(Outcome::PodsListed(vec![]));
    assert!(matches!(r.step(Outcome::Failed(api_error())), Command::Finish(Err(OverridesError::ApplyFailed(_)))));

    let (mut r, _) = Reconciler::start(svc.clone());
    r.step(Outcome::PodsListed(vec![]));
    r.step(Outcome::Done);
    assert!(matches!(r.step(Outcome::Failed(api_error())), Command::Finish(Err(OverridesError::ApplyFailed(_)))));

    let (mut r, _) = Reconciler::start(svc);
    r.step(Outcome::PodsListed(vec![]));
    r.step(Outcome::Done);
    r.step(Outcome::Done);
    assert!(matches!(
        r.step(Outcome::Failed(api_error())),
        Command::Finish(Err(OverridesError::EventPublishFailed(_)))
    ));
}

#[test]
fn add_finalizer_failure() {
    let (mut r, _) = Reconciler::start(service("demo", "web", Some(vec![("app", "web")])));
    assert!(matches!(r.step(Outcome::Failed(api_error())), Command::Finish(Err(OverridesError::FinalizerFailed(_)))));
}

#[test]
fn missing_keys_are_reported() {
    let mut svc = service("demo", "web", None);
    svc.name = None;
    match Reconciler::start(svc).1 {
        Command::Finish(Err(OverridesError::MissingObjectKey(k))) => assert_eq!(k, ".metadata.name"),
        other => panic!("unexpected {:?}", other),
    }
    let mut svc = service("demo", "web", None);
    svc.namespace = None;
    match Reconciler::start(svc).1 {
        Command::Finish(Err(OverridesError::MissingObjectKey(k))) => assert_eq!(k, ".metadata.namespace"),
        other => panic!("unexpected {:?}", other),
    }
    let mut svc = finalized(service("demo", "web", Some(vec![("app", "web")])));
    svc.uid = None;
    match Reconciler::start(svc).1 {
        Command::Finish(Err(OverridesError::MissingObjectKey(k))) => assert_eq!(k, ".metadata.uid"),
        other => panic!("unexpected {:?}", other),
    }
}

#[test]
fn finalizer_list_edits() {
    let mut svc = service("demo", "web", None);
    svc.finalizers = vec!["a/x".to_string()];
    assert_eq!(finalizers_with_token(&svc), vec!["a/x".to_string(), service_finalizer_name()]);
    let svc = finalized(service("demo", "web", None));
    assert_eq!(finalizers_without(&svc, 1), vec!["other/keep".to_string()]);
    assert_eq!(finalizers_without(&svc, 0), vec![service_finalizer_name()]);
}

#[test]
fn unchanged_service_patches_no_finalizer() {
    let svc = finalized(service("demo", "web", Some(vec![("app", "web")])));
    let (_, c) = Reconciler::start(svc);
    match c {
        Command::ListPods(sel) => assert_eq!(sel, "app=web"),
        other => panic!("unexpected {:?}", other),
    }
}
