//! The pure builders of the two mesh resources.
use vstd::prelude::*;
use vstd::string::*;
use crate::model::{
    Destination, DestinationRule, DestinationRuleView, DestinationView, HeaderMatch,
    HeaderMatchView, HttpRoute, HttpRouteView, OwnerReference, OwnerReferenceView, Service,
    ServiceView, Subset, SubsetView, VirtualService, VirtualServiceView,
    owner_refs_view, strings_view, labels_view,
};

verus! {

/// `<name>.<namespace>.svc.cluster.local`
pub open spec fn fqdn_of(name: Seq<char>, namespace: Seq<char>) -> Seq<char> {
    name + "."@ + namespace + ".svc.cluster.local"@
}

/// `(.*,|^)<name>:<version>(,.*|$)`: the header holds the token `<name>:<version>`,
/// alone or among comma-separated tokens.
pub open spec fn override_regex_of(name: Seq<char>, version: Seq<char>) -> Seq<char> {
    "(.*,|^)"@ + name + ":"@ + version + "(,.*|$)"@
}

/// The single-entry owner list, or no list at all.
pub open spec fn owner_list_of(owner: Option<OwnerReferenceView>) -> Option<Seq<OwnerReferenceView>> {
    match owner {
        Some(o) => Some(seq![o]),
        None => None,
    }
}

pub open spec fn subset_of(version: Seq<char>) -> SubsetView {
    SubsetView { name: version, labels: seq![("version"@, version)] }
}

pub open spec fn destination_rule_of(
    svc: ServiceView,
    versions: Seq<Seq<char>>,
    owner: Option<OwnerReferenceView>,
) -> DestinationRuleView {
    DestinationRuleView {
        name: svc.name->0,
        namespace: svc.namespace->0,
        owner_references: owner_list_of(owner),
        host: fqdn_of(svc.name->0, svc.namespace->0),
        subsets: versions.map_values(|v: Seq<char>| subset_of(v)),
    }
}

/// The route taken when the `x-override` header asks for `<name>:<version>`.
pub open spec fn override_route_of(name: Seq<char>, host: Seq<char>, version: Seq<char>) -> HttpRouteView {
    HttpRouteView {
        header_match: Some(HeaderMatchView { header: "x-override"@, regex: override_regex_of(name, version) }),
        destination: DestinationView { host: host, subset: version },
    }
}

/// The route taken by every other request: subset `v1`.
pub open spec fn default_route_of(host: Seq<char>) -> HttpRouteView {
    HttpRouteView { header_match: None, destination: DestinationView { host: host, subset: "v1"@ } }
}

pub open spec fn virtual_service_of(
    svc: ServiceView,
    versions: Seq<Seq<char>>,
    owner: Option<OwnerReferenceView>,
) -> VirtualServiceView {
    let name = svc.name->0;
    let host = fqdn_of(name, svc.namespace->0);
    VirtualServiceView {
        name: name + "-overrides"@,
        namespace: svc.namespace->0,
        owner_references: owner_list_of(owner),
        hosts: seq![host],
        http: versions.map_values(|v: Seq<char>| override_route_of(name, host, v)).push(
            default_route_of(host),
        ),
    }
}

pub open spec fn opt_owner_view(o: Option<OwnerReference>) -> Option<OwnerReferenceView> {
    match o {
        Some(r) => Some(r@),
        None => None,
    }
}

/// The cluster-local host name of a well-formed Service.
pub fn host_fqdn(svc: &Service) -> (r: String)
    requires
        svc@.well_formed(),
    ensures
        r@ == fqdn_of(svc@.name->0, svc@.namespace->0),
{
    let mut r = svc.name.as_ref().unwrap().clone();
    r.append(".");
    r.append(svc.namespace.as_ref().unwrap().as_str());
    r.append(".svc.cluster.local");
    r
}

/// The header regex that selects `version` of the Service named `name`.
pub fn override_regex(name: &String, version: &String) -> (r: String)
    ensures
        r@ == override_regex_of(name@, version@),
{
    let mut r = String::from_str("(.*,|^)");
    r.append(name.as_str());
    r.append(":");
    r.append(version.as_str());
    r.append("(,.*|$)");
    r
}

fn owner_list(oref: Option<OwnerReference>) -> (r: Option<Vec<OwnerReference>>)
    ensures
        owner_refs_view(r) == owner_list_of(opt_owner_view(oref)),
{
    match oref {
        Some(o) => {
            let v = vec![o];
            assert(v@.map_values(|r: OwnerReference| r@) =~= seq![o@]);
            Some(v)
        },
        None => None,
    }
}

/// The DestinationRule of a Service: one subset per version, in order.
pub fn dr_for_versions(svc: &Service, versions: &[String], oref: Option<OwnerReference>) -> (r: DestinationRule)
    requires
        svc@.well_formed(),
    ensures
        r@ == destination_rule_of(svc@, strings_view(versions@), opt_owner_view(oref)),
{
    let host = host_fqdn(svc);
    let mut subsets: Vec<Subset> = Vec::new();
    let mut i: usize = 0;
    while i < versions.len()
        invariant
            0 <= i <= versions@.len(),
            subsets@.map_values(|x: Subset| x@) =~= strings_view(versions@.subrange(0, i as int)).map_values(
                |v: Seq<char>| subset_of(v),
            ),
        decreases versions@.len() - i,
    {
        let v = versions[i].clone();
        let key = String::from_str("version");
        assert(key@ == "version"@);
        assert(v@ == versions@[i as int]@);
        let labels = vec![(key, v.clone())];
        assert(labels_view(labels@) =~= seq![("version"@, versions@[i as int]@)]);
        let s = Subset { name: v, labels };
        assert(s@ == subset_of(versions@[i as int]@));
        let ghost before = subsets@;
        subsets.push(s);
        assert(subsets@.map_values(|x: Subset| x@) =~= before.map_values(|x: Subset| x@).push(s@));
        i = i + 1;
        assert(versions@.subrange(0, i as int) =~= versions@.subrange(0, i - 1).push(versions@[i - 1]));
        assert(strings_view(versions@.subrange(0, i as int)) =~= strings_view(versions@.subrange(0, i - 1)).push(versions@[i - 1]@));
    }
    assert(versions@.subrange(0, versions@.len() as int) =~= versions@);
    let r = DestinationRule {
        name: svc.name.as_ref().unwrap().clone(),
        namespace: svc.namespace.as_ref().unwrap().clone(),
        owner_references: owner_list(oref),
        host,
        subsets,
    };
    r
}

/// The VirtualService of a Service: one override route per version, in order,
/// then the default route to `v1`.
pub fn vs_for_versions(svc: &Service, versions: &[String], oref: Option<OwnerReference>) -> (r: VirtualService)
    requires
        svc@.well_formed(),
    ensures
        r@ == virtual_service_of(svc@, strings_view(versions@), opt_owner_view(oref)),
{
    let host = host_fqdn(svc);
    let name = svc.name.as_ref().unwrap();
    let ghost hv = host@;
    let mut http: Vec<HttpRoute> = Vec::new();
    let mut i: usize = 0;
    while i < versions.len()
        invariant
            0 <= i <= versions@.len(),
            host@ == hv,
            hv == fqdn_of(svc@.name->0, svc@.namespace->0),
            name@ == svc@.name->0,
            http@.map_values(|x: HttpRoute| x@) =~= strings_view(versions@.subrange(0, i as int)).map_values(
                |v: Seq<char>| override_route_of(name@, hv, v),
            ),
        decreases versions@.len() - i,
    {
        let v = &versions[i];
        let m = HeaderMatch { header: String::from_str("x-override"), regex: override_regex(name, v) };
        let d = Destination { host: host.clone(), subset: v.clone() };
        let route = HttpRoute { header_match: Some(m), destination: d };
        assert(route@ == override_route_of(name@, hv, v@));
        let ghost before = http@;
        http.push(route);
        assert(http@.map_values(|x: HttpRoute| x@) =~= before.map_values(|x: HttpRoute| x@).push(route@));
        i = i + 1;
        assert(versions@.subrange(0, i as int) =~= versions@.subrange(0, i - 1).push(versions@[i - 1]));
        assert(strings_view(versions@.subrange(0, i as int)) =~= strings_view(versions@.subrange(0, i - 1)).push(versions@[i - 1]@));
    }
    assert(versions@.subrange(0, versions@.len() as int) =~= versions@);
    let d = Destination { host: host.clone(), subset: String::from_str("v1") };
    let default_route = HttpRoute { header_match: None, destination: d };
    assert(default_route@ == default_route_of(hv));
    let ghost before = http@;
    http.push(default_route);
    assert(http@.map_values(|x: HttpRoute| x@) =~= before.map_values(|x: HttpRoute| x@).push(default_route@));
    let mut vs_name = name.clone();
    vs_name.append("-overrides");
    let hosts = vec![host];
    assert(strings_view(hosts@) =~= seq![hv]);
    VirtualService {
        name: vs_name,
        namespace: svc.namespace.as_ref().unwrap().clone(),
        owner_references: owner_list(oref),
        hosts,
        http,
    }
}

/// The reference that marks an object as controlled by a Service with this name and uid.
pub open spec fn controller_ref_of(name: Seq<char>, uid: Seq<char>) -> OwnerReferenceView {
    OwnerReferenceView {
        api_version: "v1"@,
        kind: "Service"@,
        name: name,
        uid: uid,
        controller: Some(true),
        block_owner_deletion: None,
    }
}

/// The Service's controller owner reference; `None` when its name or uid is missing.
pub open spec fn service_controller_ref(svc: ServiceView) -> Option<OwnerReferenceView> {
    if svc.name is Some && svc.uid is Some {
        Some(controller_ref_of(svc.name->0, svc.uid->0))
    } else {
        None
    }
}

/// Relies on kube's `Resource::controller_owner_ref` for a core/v1 Service: `None`
/// when name or uid is unset, else apiVersion `v1`, kind `Service`, the name and uid,
/// `controller: true`, and `blockOwnerDeletion` unset.
#[verifier::external_body]
fn kube_controller_owner_ref(name: &Option<String>, uid: &Option<String>) -> (r: Option<OwnerReference>)
    ensures
        r is Some <==> (name is Some && uid is Some),
        r is Some ==> r->0@ == controller_ref_of(name->0@, uid->0@),
{
    let mut svc = k8s_openapi::api::core::v1::Service::default();
    svc.metadata.name = name.clone();
    svc.metadata.uid = uid.clone();
    kube::Resource::controller_owner_ref(&svc, &()).map(|o| OwnerReference {
        api_version: o.api_version,
        kind: o.kind,
        name: o.name,
        uid: o.uid,
        controller: o.controller,
        block_owner_deletion: o.block_owner_deletion,
    })
}

/// The owner reference that marks the mesh resources as controlled by `svc`.
pub fn controller_owner_ref(svc: &Service) -> (r: Option<OwnerReference>)
    ensures
        opt_owner_view(r) == service_controller_ref(svc@),
{
    kube_controller_owner_ref(&svc.name, &svc.uid)
}

/// The builders are deterministic: Services that look the same, with the same
/// versions and owner, give the same DestinationRule and VirtualService.
pub proof fn lemma_builders_deterministic(
    a: ServiceView,
    b: ServiceView,
    versions_a: Seq<Seq<char>>,
    versions_b: Seq<Seq<char>>,
    owner_a: Option<OwnerReferenceView>,
    owner_b: Option<OwnerReferenceView>,
)
    requires
        a.name == b.name,
        a.namespace == b.namespace,
        versions_a == versions_b,
        owner_a == owner_b,
    ensures
        destination_rule_of(a, versions_a, owner_a) == destination_rule_of(b, versions_b, owner_b),
        virtual_service_of(a, versions_a, owner_a) == virtual_service_of(b, versions_b, owner_b),
{
}

/// A Service's DestinationRule is named after it, in its namespace, with one
/// subset per version in order; its VirtualService, named `<name>-overrides`,
/// has one override route per version in order and then the default route, N+1
/// entries in all.
pub proof fn lemma_resource_shapes(svc: ServiceView, versions: Seq<Seq<char>>, owner: Option<OwnerReferenceView>)
    requires
        svc.well_formed(),
    ensures
        ({
            let dr = destination_rule_of(svc, versions, owner);
            &&& dr.name == svc.name->0
            &&& dr.namespace == svc.namespace->0
            &&& dr.host == fqdn_of(svc.name->0, svc.namespace->0)
            &&& dr.subsets.len() == versions.len()
            &&& forall|i: int| 0 <= i < versions.len() ==> (#[trigger] dr.subsets[i]).name == versions[i]
                && dr.subsets[i].labels == seq![("version"@, versions[i])]
        }),
        ({
            let vs = virtual_service_of(svc, versions, owner);
            let host = fqdn_of(svc.name->0, svc.namespace->0);
            &&& vs.name == svc.name->0 + "-overrides"@
            &&& vs.namespace == svc.namespace->0
            &&& vs.hosts == seq![host]
            &&& vs.http.len() == versions.len() + 1
            &&& forall|i: int| 0 <= i < versions.len() ==> (#[trigger] vs.http[i]) == override_route_of(
                svc.name->0,
                host,
                versions[i],
            )
            &&& vs.http[versions.len() as int] == default_route_of(host)
        }),
{
}

/// Both resources built for a Service with its controller reference carry
/// exactly one owner reference: to that Service, by name and uid, as controller.
pub proof fn lemma_owned_by_service(svc: ServiceView, versions: Seq<Seq<char>>)
    requires
        svc.well_formed(),
        svc.uid is Some,
    ensures
        ({
            let owner = service_controller_ref(svc);
            let refs = destination_rule_of(svc, versions, owner).owner_references;
            &&& refs == virtual_service_of(svc, versions, owner).owner_references
            &&& refs is Some
            &&& refs->0.len() == 1
            &&& refs->0[0].controller == Some(true)
            &&& refs->0[0].api_version == "v1"@
            &&& refs->0[0].kind == "Service"@
            &&& refs->0[0].name == svc.name->0
            &&& refs->0[0].uid == svc.uid->0
        }),
{
}

/// What is built without an owner (as a one-shot export does) is what is built
/// with one (as the controller applies), but for the owner references.
pub proof fn lemma_export_matches_applied(svc: ServiceView, versions: Seq<Seq<char>>, owner: OwnerReferenceView)
    requires
        svc.well_formed(),
    ensures
        destination_rule_of(svc, versions, None) == (DestinationRuleView {
            owner_references: None,
            ..destination_rule_of(svc, versions, Some(owner))
        }),
        virtual_service_of(svc, versions, None) == (VirtualServiceView {
            owner_references: None,
            ..virtual_service_of(svc, versions, Some(owner))
        }),
{
}

} // verus!
