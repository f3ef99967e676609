//! The library's errors and the controller's requeue decisions.
use vstd::prelude::*;

verus! {

/// The Kubernetes client's error, carried through unread.
#[verifier::external_type_specification]
#[verifier::external_body]
pub struct ExKubeError(kube::Error);

/// Why connecting, listing, reconciling or publishing failed.
#[derive(Debug)]
pub enum OverridesError {
    /// The connection to the API server, or its version probe, failed.
    ConnectFailed(kube::Error),
    /// Listing Services or Pods failed.
    ListResourcesFailed(kube::Error),
    /// Server-side apply of a DestinationRule or VirtualService failed.
    ApplyFailed(kube::Error),
    /// The object lacks a field the controller needs (its path is given).
    MissingObjectKey(String),
    /// Adding or removing the finalizer failed.
    FinalizerFailed(kube::Error),
    /// Publishing the Kubernetes Event failed.
    EventPublishFailed(kube::Error),
}

/// What the controller does with a key after a reconcile.
#[derive(Clone, Copy, Debug, PartialEq, Eq, Structural)]
pub enum Action {
    /// Reconcile again only when a watched object changes.
    AwaitChange,
    /// Reconcile again after this many seconds.
    RequeueAfter(u64),
}

/// Seconds before a failed reconcile is retried.
pub const ERROR_REQUEUE_SECS: u64 = 1;

/// Seconds between resyncs of a Service that reconciled cleanly.
pub const RESYNC_SECS: u64 = 300;

/// Every failed reconcile is retried after a short, flat delay.
pub fn error_policy(error: &OverridesError) -> (r: Action)
    ensures
        r == Action::RequeueAfter(ERROR_REQUEUE_SECS),
{
    Action::RequeueAfter(ERROR_REQUEUE_SECS)
}

} // verus!
