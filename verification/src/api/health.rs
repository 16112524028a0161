//! Liveness and readiness.
//!
//! - liveness: the process is up — always 200.
//! - readiness: at least one backend is routable; otherwise 503, so a load
//!   balancer stops sending requests the gateway would only reject.

use crate::api::admin::{backend_status, describes_backend, BackendStatus};
use crate::routing::registry::{Registry, RegistryView};
use vstd::prelude::*;

verus! {

/// Some endpoint of `r` can take traffic.
pub open spec fn any_routable(r: RegistryView) -> bool {
    exists|b: int| 0 <= b < r.backends.len() && (#[trigger] r.backends[b])@.routable()
}

/// The readiness report: whether any backend is routable, and each backend's
/// state.
#[derive(Debug, Clone)]
pub struct Readiness {
    pub ready: bool,
    pub backends: Vec<BackendStatus>,
}

impl Readiness {
    /// The HTTP status the report is answered with: 200 when ready, 503
    /// otherwise.
    pub fn status(&self) -> (code: u16)
        ensures
            code == (if self.ready {
                200u16
            } else {
                503u16
            }),
    {
        if self.ready {
            200
        } else {
            503
        }
    }
}

/// The liveness status: the process answers, so 200.
pub fn healthz() -> (code: u16)
    ensures
        code == 200,
{
    200
}

/// The readiness report of the registry.
pub fn readyz(registry: &Registry) -> (r: Readiness)
    ensures
        r.ready == any_routable(registry@),
        r.backends@.len() == registry@.backends.len(),
        forall|b: int|
            0 <= b < r.backends@.len() ==> describes_backend(
                #[trigger] r.backends@[b],
                registry@.backends[b]@,
            ),
{
    let backends = registry.backends();
    let mut list: Vec<BackendStatus> = Vec::new();
    let mut any = false;
    let mut b: usize = 0;
    while b < backends.len()
        invariant
            backends@ == registry@.backends,
            b <= backends@.len(),
            list@.len() == b,
            forall|x: int|
                0 <= x < b ==> describes_backend(#[trigger] list@[x], registry@.backends[x]@),
            any == exists|x: int| 0 <= x < b && (#[trigger] registry@.backends[x])@.routable(),
        decreases backends@.len() - b,
    {
        let routable = backends[b].is_routable();
        any = any || routable;
        list.push(backend_status(&backends[b]));
        b = b + 1;
    }
    Readiness { ready: any, backends: list }
}

} // verus!
