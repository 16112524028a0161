//! Routing: the model registry, the workload classifier, the admission and
//! accounting policy, and the addressing of backend health probes.

pub mod classifier;
pub mod health_router;
pub mod policy;
pub mod registry;
