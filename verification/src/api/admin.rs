//! Development/admin operations: backend health and enable state, the
//! routing table, and the per-endpoint kill-switch.
//!
//! These mutate routing state and must not be exposed publicly without
//! authentication.

use crate::config::{Backend, Protocol, Workload};
use crate::error::{ErrorCode, GatewayError};
use crate::routing::registry::{only_backend_changed, BackendHealth, BackendHealthView, Registry, RegistryView};
use vstd::prelude::*;

verus! {

/// One endpoint's health and enable state.
#[derive(Debug, Clone)]
pub struct BackendStatus {
    pub backend: Backend,
    pub endpoint: String,
    pub healthy: bool,
    pub enabled: bool,
    pub routable: bool,
}

/// `s` describes endpoint record `h`.
pub open spec fn describes_backend(s: BackendStatus, h: BackendHealthView) -> bool {
    &&& s.backend == h.backend
    &&& s.endpoint@ == h.endpoint
    &&& s.healthy == h.healthy
    &&& s.enabled == h.enabled
    &&& s.routable == h.routable()
}

/// The status of one endpoint record.
pub fn backend_status(h: &BackendHealth) -> (s: BackendStatus)
    ensures
        describes_backend(s, h@),
{
    BackendStatus {
        backend: h.backend_kind(),
        endpoint: h.endpoint_url().clone(),
        healthy: h.is_healthy(),
        enabled: h.is_enabled(),
        routable: h.is_routable(),
    }
}

/// The status of every endpoint record, in registry order.
pub fn list_backends(registry: &Registry) -> (list: Vec<BackendStatus>)
    ensures
        list@.len() == registry@.backends.len(),
        forall|b: int|
            0 <= b < list@.len() ==> describes_backend(#[trigger] list@[b], registry@.backends[b]@),
{
    let backends = registry.backends();
    let mut list: Vec<BackendStatus> = Vec::new();
    let mut b: usize = 0;
    while b < backends.len()
        invariant
            backends@ == registry@.backends,
            b <= backends@.len(),
            list@.len() == b,
            forall|x: int|
                0 <= x < b ==> describes_backend(#[trigger] list@[x], registry@.backends[x]@),
        decreases backends@.len() - b,
    {
        list.push(backend_status(&backends[b]));
        b = b + 1;
    }
    list
}

/// One row of the routing table: where a model's traffic goes.
#[derive(Debug, Clone)]
pub struct RouteEntry {
    pub model: String,
    pub workload: Workload,
    pub backend: Backend,
    pub endpoint: String,
    pub protocol: Protocol,
}

/// `e` is the routing-table row of model `i` of `r`.
pub open spec fn describes_route(e: RouteEntry, r: RegistryView, i: int) -> bool {
    let m = r.models[i];
    &&& e.model@ == m.name@
    &&& e.workload == m.cfg.workload
    &&& e.backend == m.cfg.backend
    &&& e.endpoint@ == m.cfg.endpoint@
    &&& e.protocol == m.cfg.protocol
}

/// The routing table, one row per model in registry order.
pub fn list_routes(registry: &Registry) -> (list: Vec<RouteEntry>)
    ensures
        list@.len() == registry@.models.len(),
        forall|i: int| 0 <= i < list@.len() ==> describes_route(#[trigger] list@[i], registry@, i),
{
    let models = registry.models();
    let mut list: Vec<RouteEntry> = Vec::new();
    let mut i: usize = 0;
    while i < models.len()
        invariant
            models@ == registry@.models,
            i <= models@.len(),
            list@.len() == i,
            forall|x: int| 0 <= x < i ==> describes_route(#[trigger] list@[x], registry@, x),
        decreases models@.len() - i,
    {
        let m = &models[i];
        list.push(
            RouteEntry {
                model: m.name.clone(),
                workload: m.cfg.workload,
                backend: m.cfg.backend,
                endpoint: m.cfg.endpoint.clone(),
                protocol: m.cfg.protocol,
            },
        );
        i = i + 1;
    }
    list
}

/// The outcome of toggling an endpoint's kill-switch.
#[derive(Debug, Clone)]
pub struct BackendToggle {
    pub endpoint: String,
    pub enabled: bool,
    pub routable: bool,
}

/// The message of a toggle of an endpoint that is not registered.
pub open spec fn no_backend_message(endpoint: Seq<char>) -> Seq<char> {
    "no backend with endpoint '"@ + endpoint + "'"@
}

/// Turns the kill-switch of the endpoint `endpoint` on or off. Every model
/// routed to that endpoint becomes routable exactly when it is enabled and
/// healthy; an unknown endpoint is reported as `unknown_model` and changes
/// nothing.
pub fn set_backend_enabled(registry: &mut Registry, endpoint: &str, enabled: bool) -> (r: Result<
    BackendToggle,
    GatewayError,
>)
    ensures
        final(registry)@.models == old(registry)@.models,
        final(registry)@.backends.len() == old(registry)@.backends.len(),
        !old(registry)@.has_backend(endpoint@) ==> final(registry)@ == old(registry)@,
        forall|k: int|
            0 <= k < old(registry)@.backends.len() && old(registry)@.backends[k]@.endpoint != endpoint@
                ==> #[trigger] final(registry)@.backends[k] == old(registry)@.backends[k],
        forall|k: int|
            0 <= k < old(registry)@.backends.len() && old(registry)@.backends[k]@.endpoint == endpoint@
                ==> (#[trigger] final(registry)@.backends[k])@ == (BackendHealthView {
                enabled: enabled,
                ..old(registry)@.backends[k]@
            }),
        !old(registry)@.has_backend(endpoint@) ==> final(registry)@ == old(registry)@ && (r matches Err(
            e,
        ) && e.code == ErrorCode::UnknownModel && e.message@ == no_backend_message(endpoint@)
            && e.request_id is None),
        old(registry)@.has_backend(endpoint@) ==> (r matches Ok(t) && t.endpoint@ == endpoint@
            && t.enabled == enabled && exists|b: int|
            #![trigger old(registry)@.backends[b]]
            0 <= b < old(registry)@.backends.len() && old(registry)@.backends[b]@.endpoint
                == endpoint@ && only_backend_changed(old(registry)@, final(registry)@, b)
                && final(registry)@.backends[b]@ == (BackendHealthView {
                enabled,
                ..old(registry)@.backends[b]@
            }) && t.routable == final(registry)@.backends[b]@.routable()),
        forall|i: int|
            0 <= i < final(registry)@.models.len() && (#[trigger] final(registry)@.models[i]).cfg.endpoint@ == endpoint@ ==> final(registry)@.model_routable(i) == (
            old(registry)@.model_health(i)@.healthy && (if old(registry)@.has_backend(endpoint@) {
                enabled
            } else {
                old(registry)@.model_health(i)@.enabled
            })),
{
    proof {
        use_type_invariant(&*registry);
    }
    let b = match registry.find_backend(endpoint) {
        Some(b) => b,
        None => {
            let mut message = String::from_str("no backend with endpoint '");
            message.append(endpoint);
            message.append("'");
            return Err(GatewayError::new(ErrorCode::UnknownModel, message.as_str()));
        },
    };
    let ghost before = registry@;
    registry.set_backend_enabled_at(b, enabled);
    proof {
        use_type_invariant(&*registry);
        assert forall|k: int|
            0 <= k < before.backends.len() && before.backends[k]@.endpoint != endpoint@ implies #[trigger] registry@.backends[k]
            == before.backends[k] by {
            assert(k != b);
        }
        assert forall|k: int|
            0 <= k < before.backends.len() && before.backends[k]@.endpoint == endpoint@ implies (#[trigger] registry@.backends[k])@
            == (BackendHealthView { enabled, ..before.backends[k]@ }) by {
            if k != b {
                assert(before.backends[k]@.endpoint != before.backends[b as int]@.endpoint);
            }
        }
        assert forall|i: int|
            0 <= i < registry@.models.len() && (#[trigger] registry@.models[i]).cfg.endpoint@
                == endpoint@ implies registry@.model_routable(i) == (old(registry)@.model_health(i)@.healthy && enabled) by {
            let h = registry@.models[i].health as int;
            assert(registry@.backends[h]@.endpoint == endpoint@);
            if h != b {
                assert(registry@.backends[b as int]@.endpoint == endpoint@);
            }
        }
    }
    let routable = registry.backends()[b].is_routable();
    Ok(BackendToggle { endpoint: endpoint.to_owned(), enabled, routable })
}

/// The admin kill-switch: stops all routing to `endpoint`.
pub fn disable_backend(registry: &mut Registry, endpoint: &str) -> (r: Result<
    BackendToggle,
    GatewayError,
>)
    ensures
        r is Ok <==> old(registry)@.has_backend(endpoint@),
        forall|i: int|
            0 <= i < final(registry)@.models.len() && (#[trigger] final(registry)@.models[i]).cfg.endpoint@ == endpoint@ ==> !final(registry)@.model_routable(i),
        final(registry)@.models == old(registry)@.models,
        final(registry)@.backends.len() == old(registry)@.backends.len(),
        !old(registry)@.has_backend(endpoint@) ==> final(registry)@ == old(registry)@,
        forall|k: int|
            0 <= k < old(registry)@.backends.len() && old(registry)@.backends[k]@.endpoint != endpoint@
                ==> #[trigger] final(registry)@.backends[k] == old(registry)@.backends[k],
        forall|k: int|
            0 <= k < old(registry)@.backends.len() && old(registry)@.backends[k]@.endpoint == endpoint@
                ==> (#[trigger] final(registry)@.backends[k])@ == (BackendHealthView {
                enabled: false,
                ..old(registry)@.backends[k]@
            }),
{
    proof {
        use_type_invariant(&*registry);
    }
    let r = set_backend_enabled(registry, endpoint, false);
    proof {
        assert forall|i: int|
            0 <= i < registry@.models.len() && (#[trigger] registry@.models[i]).cfg.endpoint@
                == endpoint@ implies !registry@.model_routable(i) by {
            let h = old(registry)@.models[i].health as int;
            assert(old(registry)@.backends[h]@.endpoint == endpoint@);
            assert(old(registry)@.has_backend(endpoint@));
        }
    }
    r
}

/// Re-enables routing to `endpoint` (it is routable again while healthy).
pub fn enable_backend(registry: &mut Registry, endpoint: &str) -> (r: Result<
    BackendToggle,
    GatewayError,
>)
    ensures
        r is Ok <==> old(registry)@.has_backend(endpoint@),
        forall|i: int|
            0 <= i < final(registry)@.models.len() && (#[trigger] final(registry)@.models[i]).cfg.endpoint@ == endpoint@ ==> final(registry)@.model_routable(i)
                == old(registry)@.model_health(i)@.healthy,
        final(registry)@.models == old(registry)@.models,
        final(registry)@.backends.len() == old(registry)@.backends.len(),
        !old(registry)@.has_backend(endpoint@) ==> final(registry)@ == old(registry)@,
        forall|k: int|
            0 <= k < old(registry)@.backends.len() && old(registry)@.backends[k]@.endpoint != endpoint@
                ==> #[trigger] final(registry)@.backends[k] == old(registry)@.backends[k],
        forall|k: int|
            0 <= k < old(registry)@.backends.len() && old(registry)@.backends[k]@.endpoint == endpoint@
                ==> (#[trigger] final(registry)@.backends[k])@ == (BackendHealthView {
                enabled: true,
                ..old(registry)@.backends[k]@
            }),
{
    proof {
        use_type_invariant(&*registry);
    }
    let r = set_backend_enabled(registry, endpoint, true);
    proof {
        assert forall|i: int|
            0 <= i < registry@.models.len() && (#[trigger] registry@.models[i]).cfg.endpoint@
                == endpoint@ implies registry@.model_routable(i) == old(registry)@.model_health(i)@.healthy by {
            let h = old(registry)@.models[i].health as int;
            assert(old(registry)@.backends[h]@.endpoint == endpoint@);
            assert(old(registry)@.has_backend(endpoint@));
        }
    }
    r
}

} // verus!
