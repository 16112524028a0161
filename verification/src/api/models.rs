//! Model discovery: `GET /v1/models` lists the registry; `GET
//! /v1/models/{name}` returns one model's capabilities and live health.
//! What a client sees is exactly what the gateway will route.

use crate::config::{Backend, Protocol, Workload};
use crate::error::{unknown_model_message, ErrorCode, GatewayError};
use crate::routing::registry::{Registry, RegistryView};
use vstd::prelude::*;

verus! {

/// One model's capabilities and live state.
#[derive(Debug, Clone)]
pub struct ModelSummary {
    pub name: String,
    pub workload: Workload,
    pub backend: Backend,
    pub protocol: Protocol,
    pub streaming: bool,
    pub max_concurrency: usize,
    pub timeout_ms: u64,
    /// The model's backend is routable (enabled and healthy).
    pub healthy: bool,
    /// The breaker-state gauge code of the model's breaker.
    pub circuit_state: i64,
}

/// `s` describes model `i` of `r`.
pub open spec fn summarizes(s: ModelSummary, r: RegistryView, i: int) -> bool {
    let m = r.models[i];
    &&& s.name@ == m.name@
    &&& s.workload == m.cfg.workload
    &&& s.backend == m.cfg.backend
    &&& s.protocol == m.cfg.protocol
    &&& s.streaming == m.cfg.streaming
    &&& s.max_concurrency == m.cfg.max_concurrency
    &&& s.timeout_ms == m.cfg.timeout_ms
    &&& s.healthy == r.model_routable(i)
    &&& s.circuit_state == m.breaker@.state.gauge_code()
}

/// The summary of model `i`.
pub fn model_view(registry: &Registry, i: usize) -> (s: ModelSummary)
    requires
        i < registry@.models.len(),
    ensures
        summarizes(s, registry@, i as int),
{
    let m = &registry.models()[i];
    ModelSummary {
        name: m.name.clone(),
        workload: m.cfg.workload,
        backend: m.cfg.backend,
        protocol: m.cfg.protocol,
        streaming: m.cfg.streaming,
        max_concurrency: m.cfg.max_concurrency,
        timeout_ms: m.cfg.timeout_ms,
        healthy: registry.health_of(i).is_routable(),
        circuit_state: m.breaker.state().code(),
    }
}

/// Every model's summary, ordered by name (byte order).
pub fn list_models(registry: &Registry) -> (list: Vec<ModelSummary>)
    ensures
        exists|order: Seq<usize>|
            registry@.is_name_order(order) && list@.len() == order.len() && forall|k: int|
                0 <= k < order.len() ==> summarizes(#[trigger] list@[k], registry@, order[k] as int),
{
    let order = registry.name_order();
    let mut list: Vec<ModelSummary> = Vec::new();
    let mut k: usize = 0;
    while k < order.len()
        invariant
            registry@.is_name_order(order@),
            k <= order@.len(),
            list@.len() == k,
            forall|x: int|
                0 <= x < k ==> summarizes(#[trigger] list@[x], registry@, order@[x] as int),
        decreases order@.len() - k,
    {
        list.push(model_view(registry, order[k]));
        k = k + 1;
    }
    list
}

/// The summary of the model named `name`, or an unknown-model error.
pub fn get_model(registry: &Registry, name: &str) -> (r: Result<ModelSummary, GatewayError>)
    ensures
        registry@.has_model(name@) ==> (r matches Ok(s) && summarizes(
            s,
            registry@,
            registry@.index_of(name@),
        )),
        !registry@.has_model(name@) ==> (r matches Err(e) && e.code == ErrorCode::UnknownModel
            && e.message@ == unknown_model_message(name@) && e.request_id is None),
{
    proof {
        use_type_invariant(registry);
    }
    match registry.find_model(name) {
        Some(i) => Ok(model_view(registry, i)),
        None => Err(GatewayError::unknown_model(name)),
    }
}

} // verus!
