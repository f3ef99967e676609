//! The library's own picture of the Kubernetes objects it reads and writes.
use vstd::prelude::*;

verus! {

/// A label map, as its entries in key order.
pub open spec fn labels_view(l: Seq<(String, String)>) -> Seq<(Seq<char>, Seq<char>)> {
    l.map_values(|p: (String, String)| (p.0@, p.1@))
}

/// A list of strings as a sequence of character sequences.
pub open spec fn strings_view(v: Seq<String>) -> Seq<Seq<char>> {
    v.map_values(|s: String| s@)
}

/// A reference from an owned object to the object that owns it.
#[derive(Clone, Debug)]
pub struct OwnerReference {
    pub api_version: String,
    pub kind: String,
    pub name: String,
    pub uid: String,
    pub controller: Option<bool>,
    pub block_owner_deletion: Option<bool>,
}

pub struct OwnerReferenceView {
    pub api_version: Seq<char>,
    pub kind: Seq<char>,
    pub name: Seq<char>,
    pub uid: Seq<char>,
    pub controller: Option<bool>,
    pub block_owner_deletion: Option<bool>,
}

impl View for OwnerReference {
    type V = OwnerReferenceView;

    open spec fn view(&self) -> OwnerReferenceView {
        OwnerReferenceView {
            api_version: self.api_version@,
            kind: self.kind@,
            name: self.name@,
            uid: self.uid@,
            controller: self.controller,
            block_owner_deletion: self.block_owner_deletion,
        }
    }
}

impl OwnerReference {
    /// A field-by-field copy.
    pub fn copy(&self) -> (r: OwnerReference)
        ensures
            r@ == self@,
    {
        OwnerReference {
            api_version: self.api_version.clone(),
            kind: self.kind.clone(),
            name: self.name.clone(),
            uid: self.uid.clone(),
            controller: self.controller,
            block_owner_deletion: self.block_owner_deletion,
        }
    }
}

/// What the library reads of a Service.
#[derive(Clone, Debug)]
pub struct Service {
    pub name: Option<String>,
    pub namespace: Option<String>,
    pub uid: Option<String>,
    /// `spec.selector`, entries in key order; `None` when the Service has none.
    pub selector: Option<Vec<(String, String)>>,
    pub finalizers: Vec<String>,
    /// Whether `metadata.deletionTimestamp` is set.
    pub deleting: bool,
}

pub struct ServiceView {
    pub name: Option<Seq<char>>,
    pub namespace: Option<Seq<char>>,
    pub uid: Option<Seq<char>>,
    pub selector: Option<Seq<(Seq<char>, Seq<char>)>>,
    pub finalizers: Seq<Seq<char>>,
    pub deleting: bool,
}

pub open spec fn opt_string_view(o: Option<String>) -> Option<Seq<char>> {
    match o {
        Some(s) => Some(s@),
        None => None,
    }
}

impl View for Service {
    type V = ServiceView;

    open spec fn view(&self) -> ServiceView {
        ServiceView {
            name: opt_string_view(self.name),
            namespace: opt_string_view(self.namespace),
            uid: opt_string_view(self.uid),
            selector: match self.selector {
                Some(s) => Some(labels_view(s@)),
                None => None,
            },
            finalizers: strings_view(self.finalizers@),
            deleting: self.deleting,
        }
    }
}

impl ServiceView {
    /// Name and namespace are both present.
    pub open spec fn well_formed(self) -> bool {
        self.name is Some && self.namespace is Some
    }
}

/// What the library reads of a Pod.
#[derive(Clone, Debug)]
pub struct Pod {
    pub name: Option<String>,
    pub namespace: Option<String>,
    /// `metadata.labels`, entries in key order.
    pub labels: Vec<(String, String)>,
}

pub struct PodView {
    pub name: Option<Seq<char>>,
    pub namespace: Option<Seq<char>>,
    pub labels: Seq<(Seq<char>, Seq<char>)>,
}

impl View for Pod {
    type V = PodView;

    open spec fn view(&self) -> PodView {
        PodView {
            name: opt_string_view(self.name),
            namespace: opt_string_view(self.namespace),
            labels: labels_view(self.labels@),
        }
    }
}

pub open spec fn pods_view(p: Seq<Pod>) -> Seq<PodView> {
    p.map_values(|x: Pod| x@)
}

pub open spec fn owner_refs_view(o: Option<Vec<OwnerReference>>) -> Option<Seq<OwnerReferenceView>> {
    match o {
        Some(v) => Some(v@.map_values(|r: OwnerReference| r@)),
        None => None,
    }
}

/// One named subset of a DestinationRule.
#[derive(Clone, Debug)]
pub struct Subset {
    pub name: String,
    pub labels: Vec<(String, String)>,
}

pub struct SubsetView {
    pub name: Seq<char>,
    pub labels: Seq<(Seq<char>, Seq<char>)>,
}

impl View for Subset {
    type V = SubsetView;

    open spec fn view(&self) -> SubsetView {
        SubsetView { name: self.name@, labels: labels_view(self.labels@) }
    }
}

/// A `networking.istio.io` DestinationRule.
#[derive(Clone, Debug)]
pub struct DestinationRule {
    pub name: String,
    pub namespace: String,
    pub owner_references: Option<Vec<OwnerReference>>,
    pub host: String,
    pub subsets: Vec<Subset>,
}

pub struct DestinationRuleView {
    pub name: Seq<char>,
    pub namespace: Seq<char>,
    pub owner_references: Option<Seq<OwnerReferenceView>>,
    pub host: Seq<char>,
    pub subsets: Seq<SubsetView>,
}

impl View for DestinationRule {
    type V = DestinationRuleView;

    open spec fn view(&self) -> DestinationRuleView {
        DestinationRuleView {
            name: self.name@,
            namespace: self.namespace@,
            owner_references: owner_refs_view(self.owner_references),
            host: self.host@,
            subsets: self.subsets@.map_values(|x: Subset| x@),
        }
    }
}

/// A regex match on one request header.
#[derive(Clone, Debug)]
pub struct HeaderMatch {
    pub header: String,
    pub regex: String,
}

pub struct HeaderMatchView {
    pub header: Seq<char>,
    pub regex: Seq<char>,
}

impl View for HeaderMatch {
    type V = HeaderMatchView;

    open spec fn view(&self) -> HeaderMatchView {
        HeaderMatchView { header: self.header@, regex: self.regex@ }
    }
}

/// Where a route sends traffic: a host and one of its subsets.
#[derive(Clone, Debug)]
pub struct Destination {
    pub host: String,
    pub subset: String,
}

pub struct DestinationView {
    pub host: Seq<char>,
    pub subset: Seq<char>,
}

impl View for Destination {
    type V = DestinationView;

    open spec fn view(&self) -> DestinationView {
        DestinationView { host: self.host@, subset: self.subset@ }
    }
}

/// One http entry of a VirtualService: an optional header match and a destination.
#[derive(Clone, Debug)]
pub struct HttpRoute {
    pub header_match: Option<HeaderMatch>,
    pub destination: Destination,
}

pub struct HttpRouteView {
    pub header_match: Option<HeaderMatchView>,
    pub destination: DestinationView,
}

impl View for HttpRoute {
    type V = HttpRouteView;

    open spec fn view(&self) -> HttpRouteView {
        HttpRouteView {
            header_match: match self.header_match {
                Some(m) => Some(m@),
                None => None,
            },
            destination: self.destination@,
        }
    }
}

/// A `networking.istio.io` VirtualService.
#[derive(Clone, Debug)]
pub struct VirtualService {
    pub name: String,
    pub namespace: String,
    pub owner_references: Option<Vec<OwnerReference>>,
    pub hosts: Vec<String>,
    pub http: Vec<HttpRoute>,
}

pub struct VirtualServiceView {
    pub name: Seq<char>,
    pub namespace: Seq<char>,
    pub owner_references: Option<Seq<OwnerReferenceView>>,
    pub hosts: Seq<Seq<char>>,
    pub http: Seq<HttpRouteView>,
}

impl View for VirtualService {
    type V = VirtualServiceView;

    open spec fn view(&self) -> VirtualServiceView {
        VirtualServiceView {
            name: self.name@,
            namespace: self.namespace@,
            owner_references: owner_refs_view(self.owner_references),
            hosts: strings_view(self.hosts@),
            http: self.http@.map_values(|x: HttpRoute| x@),
        }
    }
}

} // verus!
