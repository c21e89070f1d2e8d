//! Lifecycle logic of H2O clusters on Kubernetes: the cluster specification and its
//! rules, the manifests generated from it, the schema's readiness wait, and the
//! finalizer-guarded reconciliation pass.

pub mod cli;
pub mod crd;
pub mod ingress;
pub mod lifecycle;
pub mod numtext;
pub mod quantity;
pub mod readiness;
pub mod schema;
pub mod statefulset;
