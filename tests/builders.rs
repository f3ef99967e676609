use overrides::builders::{host_fqdn, override_regex};
use overrides::model::{DestinationRule, OwnerReference, Service, VirtualService};
use overrides::{controller_owner_ref, dr_for_versions, vs_for_versions};

fn service(ns: &str, name: &str, selector: Option<Vec<(&str, &str)>>) -> Service {
    Service {
        name: Some(name.to_string()),
        namespace: Some(ns.to_string()),
        uid: Some(format!("uid-{}", name)),
        selector: selector.map(|s| s.into_iter().map(|(k, v)| (k.to_string(), v.to_string())).collect()),
        finalizers: vec![],
        deleting: false,
    }
}

fn versions(vs: &[&str]) -> Vec<String> {
    vs.iter().map(|v| v.to_string()).collect()
}

fn check_subsets(dr: &DestinationRule, expected: &[&str]) {
    assert_eq!(dr.subsets.len(), expected.len());
    for (s, v) in dr.subsets.iter().zip(expected) {
        assert_eq!(s.name, *v);
        assert_eq!(s.labels, vec![("version".to_string(), v.to_string())]);
    }
}

fn check_overrides(vs: &VirtualService, svc: &str, host: &str, expected: &[&str]) {
    assert_eq!(vs.http.len(), expected.len() + 1);
    for (r, v) in vs.http.iter().zip(expected) {
        let m = r.header_match.as_ref().unwrap();
        assert_eq!(m.header, "x-override");
        assert_eq!(m.regex, format!("(.*,|^){}:{}(,.*|$)", svc, v));
        assert_eq!(r.destination.host, host);
        assert_eq!(r.destination.subset, *v);
    }
    let last = vs.http.last().unwrap();
    assert!(last.header_match.is_none());
    assert_eq!(last.destination.host, host);
    assert_eq!(last.destination.subset, "v1");
}

#[test]
fn host_is_cluster_local_fqdn() {
    let svc = service("demo", "web", Some(vec![("app", "web")]));
    assert_eq!(host_fqdn(&svc), "web.demo.svc.cluster.local");
}

#[test]
fn override_regex_matches_token_form() {
    assert_eq!(override_regex(&"web".to_string(), &"v2".to_string()), "(.*,|^)web:v2(,.*|$)");
}

#[test]
fn single_version_service() {
    let svc = service("demo", "web", Some(vec![("app", "web")]));
    let vs_list = versions(&["v1"]);
    let dr = dr_for_versions(&svc, &vs_list, None);
    assert_eq!(dr.name, "web");
    assert_eq!(dr.namespace, "demo");
    assert_eq!(dr.host, "web.demo.svc.cluster.local");
    assert!(dr.owner_references.is_none());
    check_subsets(&dr, &["v1"]);

    let vs = vs_for_versions(&svc, &vs_list, None);
    assert_eq!(vs.name, "web-overrides");
    assert_eq!(vs.namespace, "demo");
    assert_eq!(vs.hosts, vec!["web.demo.svc.cluster.local".to_string()]);
    assert_eq!(vs.http[0].header_match.as_ref().unwrap().regex, "(.*,|^)web:v1(,.*|$)");
    check_overrides(&vs, "web", "web.demo.svc.cluster.local", &["v1"]);
}

#[test]
fn one_v1_pod_gives_two_routes_to_v1() {
    let svc = service("demo", "web", Some(vec![("app", "web")]));
    let vs = vs_for_versions(&svc, &versions(&["v1"]), None);
    assert_eq!(vs.http.len(), 2);
    assert!(vs.http[0].header_match.is_some());
    assert!(vs.http[1].header_match.is_none());
    assert!(vs.http.iter().all(|r| r.destination.subset == "v1"));
}

#[test]
fn multi_version_service() {
    let svc = service("shop", "cart", Some(vec![("app", "cart")]));
    let vs_list = versions(&["v1", "v2", "v3"]);
    let dr = dr_for_versions(&svc, &vs_list, None);
    check_subsets(&dr, &["v1", "v2", "v3"]);
    let vs = vs_for_versions(&svc, &vs_list, None);
    assert_eq!(vs.http.len(), 4);
    check_overrides(&vs, "cart", "cart.shop.svc.cluster.local", &["v1", "v2", "v3"]);
}

#[test]
fn no_versions_gives_empty_subsets_and_default_route() {
    let svc = service("demo", "web", Some(vec![("app", "web")]));
    let dr = dr_for_versions(&svc, &[], None);
    assert!(dr.subsets.is_empty());
    let vs = vs_for_versions(&svc, &[], None);
    assert_eq!(vs.http.len(), 1);
    assert!(vs.http[0].header_match.is_none());
    assert_eq!(vs.http[0].destination.subset, "v1");
}

#[test]
fn duplicate_versions_are_kept() {
    let svc = service("demo", "web", Some(vec![("app", "web")]));
    let dr = dr_for_versions(&svc, &versions(&["v1", "v1"]), None);
    check_subsets(&dr, &["v1", "v1"]);
}

#[test]
fn builders_are_deterministic() {
    let a = service("demo", "web", Some(vec![("app", "web")]));
    let b = service("demo", "web", Some(vec![("app", "web")]));
    let v = versions(&["v2", "v1"]);
    let o = controller_owner_ref(&a);
    assert_eq!(
        format!("{:?}", dr_for_versions(&a, &v, o.clone())),
        format!("{:?}", dr_for_versions(&b, &v, o.clone()))
    );
    assert_eq!(
        format!("{:?}", vs_for_versions(&a, &v, o.clone())),
        format!("{:?}", vs_for_versions(&b, &v, o))
    );
}

#[test]
fn controller_owner_ref_points_at_service() {
    let svc = service("demo", "web", Some(vec![("app", "web")]));
    let o: OwnerReference = controller_owner_ref(&svc).unwrap();
    assert_eq!(o.api_version, "v1");
    assert_eq!(o.kind, "Service");
    assert_eq!(o.name, "web");
    assert_eq!(o.uid, "uid-web");
    assert_eq!(o.controller, Some(true));
    assert_eq!(o.block_owner_deletion, None);
}

#[test]
fn controller_owner_ref_needs_uid() {
    let mut svc = service("demo", "web", None);
    svc.uid = None;
    assert!(controller_owner_ref(&svc).is_none());
}

#[test]
fn owned_resources_carry_one_controller_reference() {
    let svc = service("demo", "web", Some(vec![("app", "web")]));
    let v = versions(&["v1"]);
    let dr = dr_for_versions(&svc, &v, controller_owner_ref(&svc));
    let vs = vs_for_versions(&svc, &v, controller_owner_ref(&svc));
    for refs in [dr.owner_references.unwrap(), vs.owner_references.unwrap()] {
        assert_eq!(refs.len(), 1);
        assert_eq!(refs[0].name, "web");
        assert_eq!(refs[0].kind, "Service");
        assert_eq!(refs[0].controller, Some(true));
    }
}

#[test]
fn export_differs_from_applied_only_in_owner() {
    let svc = service("demo", "web", Some(vec![("app", "web")]));
    let v = versions(&["v1", "v2"]);
    let mut applied = dr_for_versions(&svc, &v, controller_owner_ref(&svc));
    applied.owner_references = None;
    assert_eq!(format!("{:?}", applied), format!("{:?}", dr_for_versions(&svc, &v, None)));
    let mut applied_vs = vs_for_versions(&svc, &v, controller_owner_ref(&svc));
    applied_vs.owner_references = None;
    assert_eq!(format!("{:?}", applied_vs), format!("{:?}", vs_for_versions(&svc, &v, None)));
}
