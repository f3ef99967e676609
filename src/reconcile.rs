//! The decisions of one reconcile of a Service, as a state machine.
//!
//! The caller performs each [`Command`] against the cluster and reports the
//! [`Outcome`] back with [`Reconciler::step`], until the command is `Finish`.
use vstd::prelude::*;
use vstd::string::*;
use crate::builders::{
    controller_owner_ref, destination_rule_of, dr_for_versions, opt_owner_view,
    service_controller_ref, virtual_service_of, vs_for_versions,
};
use crate::error::{Action, OverridesError, RESYNC_SECS};
use crate::model::{
    DestinationRule, OwnerReference, Pod, Service, ServiceView, VirtualService, pods_view,
    strings_view,
};
use crate::selector::{format_selector, keys_ascending, selector_text};
use crate::versions::{svc_versions, versions_of};

verus! {

fn copy_owner(o: &Option<OwnerReference>) -> (r: Option<OwnerReference>)
    ensures
        opt_owner_view(r) == opt_owner_view(*o),
{
    match o {
        Some(x) => Some(x.copy()),
        None => None,
    }
}

/// The finalizer token attached to reconciled Services.
pub open spec fn finalizer_token() -> Seq<char> {
    "overrides.mt165.co.uk/Service"@
}

/// The finalizer token attached to reconciled Services.
pub fn service_finalizer_name() -> (r: String)
    ensures
        r@ == finalizer_token(),
{
    String::from_str("overrides.mt165.co.uk/Service")
}

pub open spec fn has_finalizer(svc: ServiceView) -> bool {
    svc.finalizers.contains(finalizer_token())
}

/// The Service's selector, if any, lists its entries in key order.
pub open spec fn selector_in_key_order(svc: ServiceView) -> bool {
    svc.selector is Some ==> keys_ascending(svc.selector->0)
}

/// The Service selects Pods: its selector is present and not empty.
pub open spec fn selects_pods(svc: ServiceView) -> bool {
    svc.selector is Some && svc.selector->0.len() > 0
}

/// Where a Service stands in the finalizer handshake.
#[derive(Clone, Copy, Debug, PartialEq, Eq, Structural)]
pub enum FinalizerState {
    NoFinalizerLive,
    FinalizedLive,
    FinalizedDeleting,
    NoFinalizerDeleting,
}

pub open spec fn finalizer_state_of(svc: ServiceView) -> FinalizerState {
    if has_finalizer(svc) {
        if svc.deleting {
            FinalizerState::FinalizedDeleting
        } else {
            FinalizerState::FinalizedLive
        }
    } else {
        if svc.deleting {
            FinalizerState::NoFinalizerDeleting
        } else {
            FinalizerState::NoFinalizerLive
        }
    }
}

/// The position of the finalizer token among the Service's finalizers.
pub fn finalizer_index(svc: &Service) -> (r: Option<usize>)
    ensures
        r is None <==> !has_finalizer(svc@),
        r is Some ==> r->0 < svc.finalizers@.len() && svc@.finalizers[r->0 as int] == finalizer_token(),
{
    let token = service_finalizer_name();
    let mut i: usize = 0;
    while i < svc.finalizers.len()
        invariant
            0 <= i <= svc.finalizers@.len(),
            token@ == finalizer_token(),
            forall|j: int| 0 <= j < i ==> svc@.finalizers[j] != finalizer_token(),
        decreases svc.finalizers@.len() - i,
    {
        if svc.finalizers[i] == token {
            assert(svc@.finalizers[i as int] == finalizer_token());
            assert(has_finalizer(svc@));
            return Some(i);
        }
        i = i + 1;
    }
    proof {
        if has_finalizer(svc@) {
            let k = choose|k: int| 0 <= k < svc@.finalizers.len() && svc@.finalizers[k] == finalizer_token();
            assert(svc@.finalizers[k] == finalizer_token());
        }
    }
    None
}

/// The Service's finalizers with this controller's token appended, as the
/// patch that adds the finalizer writes them.
pub fn finalizers_with_token(svc: &Service) -> (r: Vec<String>)
    ensures
        strings_view(r@) == svc@.finalizers.push(finalizer_token()),
{
    let mut out: Vec<String> = Vec::new();
    let mut i: usize = 0;
    while i < svc.finalizers.len()
        invariant
            0 <= i <= svc.finalizers@.len(),
            strings_view(out@) =~= svc@.finalizers.subrange(0, i as int),
        decreases svc.finalizers@.len() - i,
    {
        let ghost before = out@;
        out.push(svc.finalizers[i].clone());
        assert(strings_view(out@) =~= strings_view(before).push(svc@.finalizers[i as int]));
        i = i + 1;
    }
    let ghost before = out@;
    out.push(service_finalizer_name());
    assert(strings_view(out@) =~= strings_view(before).push(finalizer_token()));
    assert(svc@.finalizers.subrange(0, svc@.finalizers.len() as int) =~= svc@.finalizers);
    out
}

/// The Service's finalizers without the one at `index`, as the patch that
/// releases the finalizer writes them.
pub fn finalizers_without(svc: &Service, index: usize) -> (r: Vec<String>)
    requires
        index < svc.finalizers@.len(),
    ensures
        strings_view(r@) == svc@.finalizers.remove(index as int),
{
    let mut out: Vec<String> = Vec::new();
    let mut i: usize = 0;
    while i < svc.finalizers.len()
        invariant
            0 <= i <= svc.finalizers@.len(),
            index < svc.finalizers@.len(),
            i <= index ==> strings_view(out@) =~= svc@.finalizers.subrange(0, i as int),
            i > index ==> strings_view(out@) =~= svc@.finalizers.subrange(0, index as int) + svc@.finalizers.subrange(
                index + 1,
                i as int,
            ),
        decreases svc.finalizers@.len() - i,
    {
        let ghost before = out@;
        if i != index {
            out.push(svc.finalizers[i].clone());
            assert(strings_view(out@) =~= strings_view(before).push(svc@.finalizers[i as int]));
        }
        i = i + 1;
    }
    assert(svc@.finalizers.remove(index as int) =~= svc@.finalizers.subrange(0, index as int)
        + svc@.finalizers.subrange(index + 1, svc@.finalizers.len() as int));
    out
}

/// Where the Service stands in the finalizer handshake.
pub fn finalizer_state(svc: &Service) -> (r: FinalizerState)
    ensures
        r == finalizer_state_of(svc@),
{
    match finalizer_index(svc) {
        Some(_) => if svc.deleting {
            FinalizerState::FinalizedDeleting
        } else {
            FinalizerState::FinalizedLive
        },
        None => if svc.deleting {
            FinalizerState::NoFinalizerDeleting
        } else {
            FinalizerState::NoFinalizerLive
        },
    }
}

/// The label selector with which to list the Service's Pods; `None` when the
/// Service selects none.
pub fn pod_selector(svc: &Service) -> (r: Option<String>)
    requires
        selector_in_key_order(svc@),
    ensures
        r is Some <==> selects_pods(svc@),
        r is Some ==> r->0@ == selector_text(svc@.selector->0),
{
    match &svc.selector {
        Some(sel) => if sel.len() > 0 {
            Some(format_selector(sel))
        } else {
            None
        },
        None => None,
    }
}

/// The Kubernetes Event published after a successful apply (type `Normal`, no
/// secondary object).
#[derive(Clone, Debug)]
pub struct EventNote {
    pub reason: String,
    pub action: String,
    pub note: String,
}

pub open spec fn is_overrides_event(e: EventNote) -> bool {
    &&& e.reason@ == "Created Overrides"@
    &&& e.action@ == "Creating override resources"@
    &&& e.note@ == "Creating DestinationRule and VirtualService"@
}

pub fn overrides_event() -> (r: EventNote)
    ensures
        is_overrides_event(r),
{
    EventNote {
        reason: String::from_str("Created Overrides"),
        action: String::from_str("Creating override resources"),
        note: String::from_str("Creating DestinationRule and VirtualService"),
    }
}

/// What the caller is asked to do next.
#[derive(Debug)]
pub enum Command {
    /// Patch the Service to add the finalizer token.
    AddFinalizer,
    /// List the Pods of the Service's namespace that this label selector picks.
    ListPods(String),
    /// Server-side apply this DestinationRule.
    ApplyDestinationRule(DestinationRule),
    /// Server-side apply this VirtualService.
    ApplyVirtualService(VirtualService),
    /// Publish this `Normal` Event about the Service.
    PublishEvent(EventNote),
    /// Patch the Service to remove the finalizer at this position.
    RemoveFinalizer(usize),
    /// The reconcile is over.
    Finish(Result<Action, OverridesError>),
}

/// What came of the last command.
#[derive(Debug)]
pub enum Outcome {
    /// The patch, apply or publication succeeded.
    Done,
    /// The Pod listing succeeded, with these Pods in listing order.
    PodsListed(Vec<Pod>),
    /// The call failed.
    Failed(kube::Error),
}

/// Which command the reconcile waits on.
#[derive(Clone, Copy, Debug, PartialEq, Eq, Structural)]
pub enum Phase {
    AddingFinalizer,
    ListingPods,
    ApplyingDestinationRule,
    ApplyingVirtualService,
    PublishingEvent,
    RemovingFinalizer,
    Finished,
}

/// One reconcile of one Service.
pub struct Reconciler {
    /// The Service as it was when the reconcile began.
    pub svc: Service,
    /// The Service's controller owner reference, once the apply path is taken.
    pub owner: Option<OwnerReference>,
    /// The versions of the Service's Pods, once they are listed.
    pub versions: Vec<String>,
    pub phase: Phase,
}

pub open spec fn in_apply(p: Phase) -> bool {
    ||| p is ListingPods
    ||| p is ApplyingDestinationRule
    ||| p is ApplyingVirtualService
    ||| p is PublishingEvent
}

pub open spec fn finish_missing_key(c: Command, key: Seq<char>) -> bool {
    c is Finish && c->Finish_0 is Err && c->Finish_0->Err_0 is MissingObjectKey
        && c->Finish_0->Err_0->MissingObjectKey_0@ == key
}

impl Reconciler {
    pub open spec fn wf(self) -> bool {
        &&& self.phase != Phase::Finished ==> self.svc@.well_formed()
        &&& selector_in_key_order(self.svc@)
        &&& in_apply(self.phase) ==> {
            &&& selects_pods(self.svc@)
            &&& opt_owner_view(self.owner) == service_controller_ref(self.svc@)
            &&& self.owner is Some
        }
        &&& self.phase is AddingFinalizer ==> finalizer_state_of(self.svc@) == FinalizerState::NoFinalizerLive
        &&& self.phase is RemovingFinalizer ==> finalizer_state_of(self.svc@) == FinalizerState::FinalizedDeleting
    }

    /// The command that waits in each phase is the one for that phase.
    pub open spec fn issues(self, c: Command) -> bool {
        match self.phase {
            Phase::AddingFinalizer => c is AddFinalizer,
            Phase::ListingPods => c is ListPods && c->ListPods_0@ == selector_text(self.svc@.selector->0),
            Phase::ApplyingDestinationRule => c is ApplyDestinationRule && c->ApplyDestinationRule_0@
                == destination_rule_of(self.svc@, strings_view(self.versions@), opt_owner_view(self.owner)),
            Phase::ApplyingVirtualService => c is ApplyVirtualService && c->ApplyVirtualService_0@
                == virtual_service_of(self.svc@, strings_view(self.versions@), opt_owner_view(self.owner)),
            Phase::PublishingEvent => c is PublishEvent && is_overrides_event(c->PublishEvent_0),
            Phase::RemovingFinalizer => c is RemoveFinalizer && c->RemoveFinalizer_0 < self.svc.finalizers@.len()
                && self.svc@.finalizers[c->RemoveFinalizer_0 as int] == finalizer_token(),
            Phase::Finished => c is Finish,
        }
    }

    /// Entering the apply path: no selector means nothing to do; a Service
    /// without uid cannot own anything; otherwise its Pods are listed.
    pub open spec fn enters_apply(self, c: Command) -> bool {
        if !selects_pods(self.svc@) {
            self.phase is Finished && c == Command::Finish(Ok(Action::AwaitChange))
        } else if self.svc@.uid is None {
            self.phase is Finished && finish_missing_key(c, ".metadata.uid"@)
        } else {
            self.phase is ListingPods
        }
    }

    /// Begins the apply path.
    fn begin_apply(&mut self) -> (c: Command)
        requires
            old(self).svc@.well_formed(),
            selector_in_key_order(old(self).svc@),
            finalizer_state_of(old(self).svc@) == FinalizerState::FinalizedLive
                || finalizer_state_of(old(self).svc@) == FinalizerState::NoFinalizerLive,
        ensures
            final(self).svc == old(self).svc,
            final(self).wf(),
            final(self).issues(c),
            final(self).enters_apply(c),
    {
        let sel = pod_selector(&self.svc);
        match sel {
            None => {
                self.phase = Phase::Finished;
                Command::Finish(Ok(Action::AwaitChange))
            },
            Some(text) => {
                let owner = controller_owner_ref(&self.svc);
                match owner {
                    None => {
                        self.phase = Phase::Finished;
                        Command::Finish(Err(OverridesError::MissingObjectKey(String::from_str(".metadata.uid"))))
                    },
                    Some(o) => {
                        self.owner = Some(o);
                        self.phase = Phase::ListingPods;
                        Command::ListPods(text)
                    },
                }
            },
        }
    }

    /// Begins a reconcile of `svc`: checks its keys, then takes the finalizer
    /// handshake's branch for where the Service stands.
    pub fn start(svc: Service) -> (r: (Reconciler, Command))
        requires
            selector_in_key_order(svc@),
        ensures
            r.0.svc == svc,
            r.0.wf(),
            r.0.issues(r.1),
            r.1 is Finish <==> r.0.phase is Finished,
            (r.1 is ApplyDestinationRule || r.1 is ApplyVirtualService) ==> selects_pods(svc@),
            r.1 is RemoveFinalizer ==> svc.deleting,
            svc@.name is None ==> finish_missing_key(r.1, ".metadata.name"@),
            svc@.name is Some && svc@.namespace is None ==> finish_missing_key(r.1, ".metadata.namespace"@),
            svc@.well_formed() ==> match finalizer_state_of(svc@) {
                FinalizerState::NoFinalizerLive => r.0.phase is AddingFinalizer,
                FinalizerState::FinalizedLive => r.0.enters_apply(r.1),
                FinalizerState::FinalizedDeleting => r.0.phase is RemovingFinalizer,
                FinalizerState::NoFinalizerDeleting => r.1 == Command::Finish(Ok(Action::AwaitChange)),
            },
    {
        if svc.name.is_none() {
            let r = Reconciler { svc, owner: None, versions: Vec::new(), phase: Phase::Finished };
            return (r, Command::Finish(Err(OverridesError::MissingObjectKey(String::from_str(".metadata.name")))));
        }
        if svc.namespace.is_none() {
            let r = Reconciler { svc, owner: None, versions: Vec::new(), phase: Phase::Finished };
            return (r, Command::Finish(Err(OverridesError::MissingObjectKey(String::from_str(".metadata.namespace")))));
        }
        match finalizer_index(&svc) {
            Some(i) => if svc.deleting {
                let r = Reconciler { svc, owner: None, versions: Vec::new(), phase: Phase::RemovingFinalizer };
                (r, Command::RemoveFinalizer(i))
            } else {
                let mut r = Reconciler { svc, owner: None, versions: Vec::new(), phase: Phase::Finished };
                let c = r.begin_apply();
                (r, c)
            },
            None => if svc.deleting {
                let r = Reconciler { svc, owner: None, versions: Vec::new(), phase: Phase::Finished };
                (r, Command::Finish(Ok(Action::AwaitChange)))
            } else {
                let r = Reconciler { svc, owner: None, versions: Vec::new(), phase: Phase::AddingFinalizer };
                (r, Command::AddFinalizer)
            },
        }
    }

    /// The outcome answers the command of the current phase.
    pub open spec fn answers(self, outcome: Outcome) -> bool {
        &&& self.phase != Phase::Finished
        &&& (outcome is PodsListed ==> self.phase is ListingPods)
        &&& (self.phase is ListingPods ==> !(outcome is Done))
    }

    /// Takes the outcome of the last command and decides the next one.
    pub fn step(&mut self, outcome: Outcome) -> (c: Command)
        requires
            old(self).wf(),
            old(self).answers(outcome),
        ensures
            final(self).svc == old(self).svc,
            final(self).wf(),
            final(self).issues(c),
            c is Finish <==> final(self).phase is Finished,
            (c is ApplyDestinationRule || c is ApplyVirtualService) ==> selects_pods(old(self).svc@),
            c is RemoveFinalizer ==> old(self).svc.deleting,
            match outcome {
                Outcome::Failed(e) => c == Command::Finish(Err(match old(self).phase {
                    Phase::ListingPods => OverridesError::ListResourcesFailed(e),
                    Phase::ApplyingDestinationRule => OverridesError::ApplyFailed(e),
                    Phase::ApplyingVirtualService => OverridesError::ApplyFailed(e),
                    Phase::PublishingEvent => OverridesError::EventPublishFailed(e),
                    _ => OverridesError::FinalizerFailed(e),
                })),
                Outcome::PodsListed(pods) => {
                    &&& final(self).phase is ApplyingDestinationRule
                    &&& strings_view(final(self).versions@) == versions_of(pods_view(pods@))
                    &&& opt_owner_view(final(self).owner) == service_controller_ref(old(self).svc@)
                },
                Outcome::Done => match old(self).phase {
                    Phase::AddingFinalizer => final(self).enters_apply(c),
                    Phase::ApplyingDestinationRule => {
                        &&& final(self).phase is ApplyingVirtualService
                        &&& final(self).versions@ == old(self).versions@
                        &&& final(self).owner == old(self).owner
                    },
                    Phase::ApplyingVirtualService => final(self).phase is PublishingEvent,
                    Phase::PublishingEvent => c == Command::Finish(Ok(Action::RequeueAfter(RESYNC_SECS))),
                    _ => c == Command::Finish(Ok(Action::AwaitChange)),
                },
            },
    {
        match outcome {
            Outcome::Failed(e) => {
                let err = match self.phase {
                    Phase::ListingPods => OverridesError::ListResourcesFailed(e),
                    Phase::ApplyingDestinationRule => OverridesError::ApplyFailed(e),
                    Phase::ApplyingVirtualService => OverridesError::ApplyFailed(e),
                    Phase::PublishingEvent => OverridesError::EventPublishFailed(e),
                    _ => OverridesError::FinalizerFailed(e),
                };
                self.phase = Phase::Finished;
                Command::Finish(Err(err))
            },
            Outcome::PodsListed(pods) => {
                self.versions = svc_versions(pods.as_slice());
                self.phase = Phase::ApplyingDestinationRule;
                let owner = copy_owner(&self.owner);
                Command::ApplyDestinationRule(dr_for_versions(&self.svc, self.versions.as_slice(), owner))
            },
            Outcome::Done => match self.phase {
                Phase::AddingFinalizer => self.begin_apply(),
                Phase::ApplyingDestinationRule => {
                    self.phase = Phase::ApplyingVirtualService;
                    let owner = copy_owner(&self.owner);
                    Command::ApplyVirtualService(vs_for_versions(&self.svc, self.versions.as_slice(), owner))
                },
                Phase::ApplyingVirtualService => {
                    self.phase = Phase::PublishingEvent;
                    Command::PublishEvent(overrides_event())
                },
                Phase::PublishingEvent => {
                    self.phase = Phase::Finished;
                    Command::Finish(Ok(Action::RequeueAfter(RESYNC_SECS)))
                },
                _ => {
                    self.phase = Phase::Finished;
                    Command::Finish(Ok(Action::AwaitChange))
                },
            },
        }
    }
}

/// A reconcile of a Service that selects no Pods never applies a DestinationRule
/// or a VirtualService, whatever phase it has reached.
pub proof fn lemma_no_resources_without_selector(r: Reconciler, c: Command)
    requires
        r.wf(),
        !selects_pods(r.svc@),
        r.issues(c),
    ensures
        !(c is ApplyDestinationRule),
        !(c is ApplyVirtualService),
{
}

/// The finalizer is only ever removed from a Service that is being deleted, and
/// only at the position that holds this controller's token; it is only ever
/// added to a live Service that lacks it.
pub proof fn lemma_finalizer_handshake(r: Reconciler, c: Command)
    requires
        r.wf(),
        r.issues(c),
    ensures
        c is RemoveFinalizer ==> {
            &&& r.svc.deleting
            &&& c->RemoveFinalizer_0 < r.svc@.finalizers.len()
            &&& r.svc@.finalizers[c->RemoveFinalizer_0 as int] == finalizer_token()
        },
        c is AddFinalizer ==> !r.svc.deleting && !has_finalizer(r.svc@),
{
}

/// Reconciling an unchanged Service whose Pods list the same versions applies
/// the same DestinationRule and VirtualService again.
pub proof fn lemma_reapply_identical(r1: Reconciler, r2: Reconciler, c1: Command, c2: Command)
    requires
        r1.wf(),
        r2.wf(),
        r1.svc@ == r2.svc@,
        strings_view(r1.versions@) == strings_view(r2.versions@),
        r1.phase == r2.phase,
        r1.issues(c1),
        r2.issues(c2),
    ensures
        c1 is ApplyDestinationRule ==> c1->ApplyDestinationRule_0@ == c2->ApplyDestinationRule_0@,
        c1 is ApplyVirtualService ==> c1->ApplyVirtualService_0@ == c2->ApplyVirtualService_0@,
{
}

/// A reconcile of a live Service that already holds the finalizer never patches
/// the finalizer; with [`lemma_reapply_identical`], re-running it for an
/// unchanged Service only re-applies the same resources.
pub proof fn lemma_steady_state_reconcile(r: Reconciler, c: Command)
    requires
        r.wf(),
        r.issues(c),
        finalizer_state_of(r.svc@) == FinalizerState::FinalizedLive,
    ensures
        !(c is AddFinalizer),
        !(c is RemoveFinalizer),
{
}

} // verus!
