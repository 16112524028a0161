//! Backend health probing.
//!
//! The server periodically probes each endpoint's health URL and records the
//! result in the registry. Routing consults that state so traffic is not sent
//! to a backend known to be down; with the circuit breaker this gives both
//! proactive (polled) and reactive (failure-driven) health signals.

use crate::config::Backend;
use crate::text::{append_decimal, decimal, trim_end_slashes, trim_trailing_slashes};
use vstd::prelude::*;

verus! {

/// The health URL of a backend at `endpoint`:
/// - Triton (KServe v2): `GET /v2/health/ready`
/// - Dynamo frontend:    `GET /health`
pub open spec fn health_url_spec(backend: Backend, endpoint: Seq<char>) -> Seq<char> {
    match backend {
        Backend::Triton => trim_trailing_slashes(endpoint) + "/v2/health/ready"@,
        Backend::Dynamo => trim_trailing_slashes(endpoint) + "/health"@,
    }
}

/// The health URL of a backend at `endpoint` (trailing slashes of the
/// endpoint removed).
pub fn health_url(backend: Backend, endpoint: &str) -> (url: String)
    ensures
        url@ == health_url_spec(backend, endpoint@),
{
    let mut url = String::from_str(trim_end_slashes(endpoint));
    match backend {
        Backend::Triton => url.append("/v2/health/ready"),
        Backend::Dynamo => url.append("/health"),
    }
    url
}

/// The backend-health gauge value: 1 when healthy, 0 otherwise.
pub fn health_gauge(healthy: bool) -> (v: i64)
    ensures
        v == (if healthy {
            1i64
        } else {
            0i64
        }),
{
    if healthy {
        1
    } else {
        0
    }
}

/// The metric identifier of the endpoint at position `index` of the
/// registry: its backend kind and position, such as `triton-0`. Endpoint URLs
/// are never metric labels.
pub open spec fn endpoint_metric_id_spec(backend: Backend, index: nat) -> Seq<char> {
    backend.label() + "-"@ + decimal(index)
}

/// The metric identifier of the endpoint at position `index` of the registry.
pub fn endpoint_metric_id(backend: Backend, index: usize) -> (id: String)
    ensures
        id@ == endpoint_metric_id_spec(backend, index as nat),
{
    let mut id = String::from_str(backend.as_str());
    id.append("-");
    append_decimal(&mut id, index as u64);
    id
}

} // verus!
