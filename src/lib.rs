//! Derives Istio traffic-override configuration (a DestinationRule and a
//! VirtualService) for each Kubernetes Service, and decides the steps that
//! keep that configuration converged with the cluster.
pub mod builders;
pub mod error;
pub mod model;
pub mod reconcile;
pub mod selector;
pub mod versions;

pub use builders::{controller_owner_ref, dr_for_versions, vs_for_versions};
pub use error::{error_policy, Action, OverridesError};
pub use model::{DestinationRule, OwnerReference, Pod, Service, VirtualService};
pub use reconcile::{Command, Outcome, Phase, Reconciler};
pub use versions::svc_versions;
