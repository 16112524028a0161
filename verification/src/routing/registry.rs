//! The model-capability registry and per-model runtime state.
//!
//! Built once from config. Each model gets its own admission accounting and
//! circuit breaker; backend *health* is tracked per endpoint and shared by all
//! models pointing at that endpoint (e.g. resnet50 and text_embedding share one
//! Triton). Admin enable/disable is also per endpoint.

use crate::admission::backpressure::{AcquireOutcome, Admission, AdmissionView, AdmitReject};
use crate::admission::circuit_breaker::{initial_breaker, CircuitBreaker};
use crate::config::{millis_to_nanos, Backend, Config, ModelConfig};
use crate::text::{
    bytes_lt, lemma_lex_lt_asymmetric, lemma_lex_lt_total, lemma_lex_lt_transitive, lex_lt,
};
use std::time::Instant;
use vstd::prelude::*;
use vstd::string::StringSliceAdditionalSpecFns;
use vstd::utf8::{encode_utf8, encode_utf8_decode_utf8};

verus! {

/// The abstract state of one backend endpoint.
pub struct BackendHealthView {
    pub backend: Backend,
    pub endpoint: Seq<char>,
    pub healthy: bool,
    pub consecutive_poll_failures: usize,
    pub enabled: bool,
}

impl BackendHealthView {
    /// Routable = enabled by an operator AND observed healthy.
    pub open spec fn routable(self) -> bool {
        self.enabled && self.healthy
    }

    /// A freshly registered endpoint: optimistically healthy and enabled.
    pub open spec fn fresh(self) -> bool {
        &&& self.healthy
        &&& self.enabled
        &&& self.consecutive_poll_failures == 0
    }

    /// The state after one health poll with result `ok`.
    pub open spec fn after_poll(self, ok: bool, unhealthy_after: usize) -> BackendHealthView {
        if ok {
            BackendHealthView { consecutive_poll_failures: 0, healthy: true, ..self }
        } else {
            let n = self.consecutive_poll_failures + 1;
            BackendHealthView {
                consecutive_poll_failures: n as usize,
                healthy: if n >= unhealthy_after {
                    false
                } else {
                    self.healthy
                },
                ..self
            }
        }
    }

    /// The state after the health polls `polls`, in order (`true` for a
    /// successful poll).
    pub open spec fn after_polls(self, polls: Seq<bool>, unhealthy_after: usize) -> BackendHealthView
        decreases polls.len(),
    {
        if polls.len() == 0 {
            self
        } else {
            self.after_polls(polls.drop_last(), unhealthy_after).after_poll(
                polls.last(),
                unhealthy_after,
            )
        }
    }

    /// The state after `n` failed polls in a row.
    pub open spec fn after_failed_polls(self, n: nat, unhealthy_after: usize) -> BackendHealthView
        decreases n,
    {
        if n == 0 {
            self
        } else {
            self.after_failed_polls((n - 1) as nat, unhealthy_after).after_poll(
                false,
                unhealthy_after,
            )
        }
    }
}

/// Health and operational state for one backend endpoint.
pub struct BackendHealth {
    pub backend: Backend,
    pub endpoint: String,
    healthy: bool,
    /// Consecutive failed health polls.
    consecutive_poll_failures: usize,
    /// Admin kill-switch. When false, all routing to this backend is rejected.
    enabled: bool,
}

impl View for BackendHealth {
    type V = BackendHealthView;

    closed spec fn view(&self) -> BackendHealthView {
        BackendHealthView {
            backend: self.backend,
            endpoint: self.endpoint@,
            healthy: self.healthy,
            consecutive_poll_failures: self.consecutive_poll_failures,
            enabled: self.enabled,
        }
    }
}

impl BackendHealth {
    /// A new endpoint record, optimistically healthy until the first poll says
    /// otherwise, and enabled.
    pub fn new(backend: Backend, endpoint: String) -> (h: Self)
        ensures
            h@ == (BackendHealthView {
                backend,
                endpoint: endpoint@,
                healthy: true,
                consecutive_poll_failures: 0,
                enabled: true,
            }),
    {
        BackendHealth {
            backend,
            endpoint,
            healthy: true,
            consecutive_poll_failures: 0,
            enabled: true,
        }
    }

    pub fn backend_kind(&self) -> (b: Backend)
        ensures
            b == self@.backend,
    {
        self.backend
    }

    pub fn endpoint_url(&self) -> (e: &String)
        ensures
            e@ == self@.endpoint,
    {
        &self.endpoint
    }

    pub fn is_healthy(&self) -> (b: bool)
        ensures
            b == self@.healthy,
    {
        self.healthy
    }

    pub fn is_enabled(&self) -> (b: bool)
        ensures
            b == self@.enabled,
    {
        self.enabled
    }

    /// Routable = enabled by an operator AND observed healthy.
    pub fn is_routable(&self) -> (b: bool)
        ensures
            b == self@.routable(),
    {
        self.is_enabled() && self.is_healthy()
    }

    pub fn consecutive_poll_failures(&self) -> (n: usize)
        ensures
            n == self@.consecutive_poll_failures,
    {
        self.consecutive_poll_failures
    }

    pub fn set_enabled(&mut self, enabled: bool)
        ensures
            final(self)@ == (BackendHealthView { enabled, ..old(self)@ }),
    {
        self.enabled = enabled;
    }

    /// Records a health-poll result. `unhealthy_after` consecutive failures
    /// flip the backend to unhealthy; a single success restores it.
    pub fn record_poll(&mut self, ok: bool, unhealthy_after: usize)
        requires
            !ok ==> old(self)@.consecutive_poll_failures < usize::MAX,
        ensures
            final(self)@ == old(self)@.after_poll(ok, unhealthy_after),
    {
        if ok {
            self.consecutive_poll_failures = 0;
            self.healthy = true;
        } else {
            let n = self.consecutive_poll_failures + 1;
            self.consecutive_poll_failures = n;
            if n >= unhealthy_after {
                self.healthy = false;
            }
        }
    }
}

/// A single successful poll restores a backend to healthy.
pub proof fn lemma_success_restores_health(v: BackendHealthView, unhealthy_after: usize)
    ensures
        v.after_poll(true, unhealthy_after).healthy,
        v.after_poll(true, unhealthy_after).consecutive_poll_failures == 0,
{
}

/// From a clean count, a backend keeps its health through
/// `unhealthy_after - 1` failed polls in a row and is unhealthy after
/// `unhealthy_after` of them.
pub proof fn lemma_unhealthy_after_failed_polls(
    v: BackendHealthView,
    n: nat,
    unhealthy_after: usize,
)
    requires
        v.consecutive_poll_failures == 0,
        unhealthy_after >= 1,
        n <= unhealthy_after,
    ensures
        v.after_failed_polls(n, unhealthy_after).consecutive_poll_failures == n,
        n < unhealthy_after ==> v.after_failed_polls(n, unhealthy_after).healthy == v.healthy,
        n == unhealthy_after ==> !v.after_failed_polls(n, unhealthy_after).healthy,
    decreases n,
{
    if n > 0 {
        lemma_unhealthy_after_failed_polls(v, (n - 1) as nat, unhealthy_after);
    }
}

/// The number of failed polls at the end of `polls`: those since the last
/// successful one, or all of them if none succeeded.
pub open spec fn trailing_failures(polls: Seq<bool>) -> nat
    decreases polls.len(),
{
    if polls.len() == 0 {
        0
    } else if polls.last() {
        0
    } else {
        trailing_failures(polls.drop_last()) + 1
    }
}

/// Starting healthy with a clean count (as a newly registered endpoint, or
/// one just after a successful poll), after any run of polls the endpoint is
/// healthy exactly when fewer than `unhealthy_after` polls have failed since
/// the last success; one success restores health, and the operator's
/// enable switch is untouched.
pub proof fn lemma_poll_health(v: BackendHealthView, polls: Seq<bool>, unhealthy_after: usize)
    requires
        v.healthy,
        v.consecutive_poll_failures == 0,
        unhealthy_after >= 1,
        polls.len() <= usize::MAX,
    ensures
        v.after_polls(polls, unhealthy_after).consecutive_poll_failures == trailing_failures(polls),
        v.after_polls(polls, unhealthy_after).healthy == (trailing_failures(polls) < unhealthy_after),
        v.after_polls(polls, unhealthy_after).enabled == v.enabled,
        v.after_polls(polls, unhealthy_after).backend == v.backend,
        v.after_polls(polls, unhealthy_after).endpoint == v.endpoint,
    decreases polls.len(),
{
    if polls.len() > 0 {
        let prefix = polls.drop_last();
        lemma_poll_health(v, prefix, unhealthy_after);
        lemma_trailing_failures_bounded(prefix);
    }
}

/// Whatever the endpoint's state, once any poll of a run has succeeded the
/// endpoint is healthy exactly when fewer than `unhealthy_after` polls have
/// failed since the last success.
pub proof fn lemma_poll_health_after_success(
    v: BackendHealthView,
    polls: Seq<bool>,
    unhealthy_after: usize,
)
    requires
        unhealthy_after >= 1,
        polls.contains(true),
        polls.len() <= usize::MAX,
    ensures
        v.after_polls(polls, unhealthy_after).consecutive_poll_failures == trailing_failures(polls),
        v.after_polls(polls, unhealthy_after).healthy == (trailing_failures(polls) < unhealthy_after),
        v.after_polls(polls, unhealthy_after).enabled == v.enabled,
    decreases polls.len(),
{
    let prefix = polls.drop_last();
    if polls.last() {
        lemma_enabled_kept(v, prefix, unhealthy_after);
    } else {
        let i = choose|i: int| 0 <= i < polls.len() && polls[i] == true;
        assert(prefix[i] == true);
        lemma_poll_health_after_success(v, prefix, unhealthy_after);
        lemma_trailing_failures_bounded(prefix);
    }
}

proof fn lemma_enabled_kept(v: BackendHealthView, polls: Seq<bool>, unhealthy_after: usize)
    ensures
        v.after_polls(polls, unhealthy_after).enabled == v.enabled,
    decreases polls.len(),
{
    if polls.len() > 0 {
        lemma_enabled_kept(v, polls.drop_last(), unhealthy_after);
    }
}

proof fn lemma_trailing_failures_bounded(polls: Seq<bool>)
    ensures
        trailing_failures(polls) <= polls.len(),
    decreases polls.len(),
{
    if polls.len() > 0 {
        lemma_trailing_failures_bounded(polls.drop_last());
    }
}

/// Everything needed to route and admit one model's traffic. `health` is the
/// index, in the registry, of the model's backend endpoint.
pub struct ModelRuntime {
    pub name: String,
    pub cfg: ModelConfig,
    pub admission: Admission,
    pub breaker: CircuitBreaker,
    pub health: usize,
}

/// The abstract state of a registry.
pub struct RegistryView {
    pub models: Seq<ModelRuntime>,
    pub backends: Seq<BackendHealth>,
}

impl RegistryView {
    /// Every model points at the endpoint record of its own endpoint; model
    /// names and endpoints are unique.
    pub open spec fn wf(self) -> bool {
        &&& forall|i: int|
            0 <= i < self.models.len() ==> (#[trigger] self.models[i]).health
                < self.backends.len()
        &&& forall|i: int|
            0 <= i < self.models.len() ==> self.backends[(#[trigger] self.models[i]).health as int]@.endpoint
                == self.models[i].cfg.endpoint@
        &&& forall|i: int, j: int|
            0 <= i < self.models.len() && 0 <= j < self.models.len() && i != j
                ==> #[trigger] self.models[i].name@ != #[trigger] self.models[j].name@
        &&& forall|i: int, j: int|
            0 <= i < self.backends.len() && 0 <= j < self.backends.len() && i != j
                ==> #[trigger] self.backends[i]@.endpoint != #[trigger] self.backends[j]@.endpoint
    }

    /// Some model is named `name`.
    pub open spec fn has_model(self, name: Seq<char>) -> bool {
        exists|i: int| 0 <= i < self.models.len() && #[trigger] self.models[i].name@ == name
    }

    /// The index of the model named `name` (meaningful when there is one).
    pub open spec fn index_of(self, name: Seq<char>) -> int {
        choose|i: int| 0 <= i < self.models.len() && #[trigger] self.models[i].name@ == name
    }

    /// The UTF-8 bytes of model `i`'s name.
    pub open spec fn name_bytes(self, i: int) -> Seq<u8> {
        encode_utf8(self.models[i].name@)
    }

    /// `order` lists every model index once, by name in byte order.
    pub open spec fn is_name_order(self, order: Seq<usize>) -> bool {
        &&& order.len() == self.models.len()
        &&& forall|k: int| 0 <= k < order.len() ==> #[trigger] order[k] < self.models.len()
        &&& forall|k: int, l: int|
            0 <= k < l < order.len() ==> lex_lt(
                self.name_bytes(#[trigger] order[k] as int),
                self.name_bytes(#[trigger] order[l] as int),
            )
        &&& forall|i: int| 0 <= i < self.models.len() ==> #[trigger] appears_in(order, i)
    }

    /// Some endpoint record has endpoint `endpoint`.
    pub open spec fn has_backend(self, endpoint: Seq<char>) -> bool {
        exists|i: int|
            0 <= i < self.backends.len() && #[trigger] self.backends[i]@.endpoint == endpoint
    }

    /// The health record of model `i`.
    pub open spec fn model_health(self, i: int) -> BackendHealth {
        self.backends[self.models[i].health as int]
    }

    /// Model `i` may currently be routed to.
    pub open spec fn model_routable(self, i: int) -> bool {
        self.model_health(i)@.routable()
    }
}

/// Model `j` of `c` is the first with its endpoint.
pub open spec fn first_with_endpoint(c: Config, j: int) -> bool {
    &&& 0 <= j < c.models@.len()
    &&& forall|k: int|
        0 <= k < j ==> (#[trigger] c.models@[k]).1.endpoint@ != c.models@[j].1.endpoint@
}

/// Model runtime `m` is the fresh runtime for entry `(name, cfg)` of `c`.
pub open spec fn fresh_model(c: Config, m: ModelRuntime, entry: (String, ModelConfig)) -> bool {
    &&& m.name@ == entry.0@
    &&& m.cfg == entry.1
    &&& m.admission@ == (AdmissionView {
        max_concurrency: entry.1.max_concurrency,
        max_queue: c.admission.queue_capacity,
        queue_timeout_ns: millis_to_nanos(c.admission.queue_timeout_ms),
        queue_depth: 0,
        inflight: 0,
    })
    &&& m.breaker@ == initial_breaker(c.admission.circuit_breaker)
}

/// Endpoint record `b` was registered fresh for the first model of `c` that
/// uses its endpoint.
pub open spec fn fresh_backend(c: Config, b: BackendHealth) -> bool {
    &&& b@.fresh()
    &&& exists|j: int|
        #![trigger c.models@[j]]
        first_with_endpoint(c, j) && c.models@[j].1.endpoint@ == b@.endpoint && c.models@[j].1.backend
            == b@.backend
}

/// The registry `r` is the one built from `c`: one fresh runtime per model,
/// in the configured order, and one fresh endpoint record per distinct
/// endpoint, of the backend kind of the first model using it.
pub open spec fn built_from(r: RegistryView, c: Config) -> bool {
    &&& r.wf()
    &&& r.models.len() == c.models@.len()
    &&& forall|i: int|
        0 <= i < r.models.len() ==> fresh_model(c, #[trigger] r.models[i], c.models@[i])
    &&& forall|b: int| 0 <= b < r.backends.len() ==> fresh_backend(c, #[trigger] r.backends[b])
}

/// `j` is one of the entries of `order`.
pub open spec fn appears_in(order: Seq<usize>, j: int) -> bool {
    exists|k: int| 0 <= k < order.len() && order[k] == j
}

/// `new` differs from `old` at most in the admission and breaker of model `i`.
pub open spec fn only_model_state_changed(old: RegistryView, new: RegistryView, i: int) -> bool {
    &&& new.backends == old.backends
    &&& new.models.len() == old.models.len()
    &&& 0 <= i < old.models.len()
    &&& forall|j: int| 0 <= j < old.models.len() && j != i ==> new.models[j] == old.models[j]
    &&& new.models[i].name == old.models[i].name
    &&& new.models[i].cfg == old.models[i].cfg
    &&& new.models[i].health == old.models[i].health
}

/// `new` differs from `old` only in the state of model `i`'s breaker.
pub open spec fn only_breaker_changed(old: RegistryView, new: RegistryView, i: int) -> bool {
    &&& only_model_state_changed(old, new, i)
    &&& new.models[i].admission == old.models[i].admission
}

/// `new` differs from `old` only in the state of model `i`'s admission.
pub open spec fn only_admission_changed(old: RegistryView, new: RegistryView, i: int) -> bool {
    &&& only_model_state_changed(old, new, i)
    &&& new.models[i].breaker == old.models[i].breaker
}

/// `new` differs from `old` only in the state of endpoint record `b`.
pub open spec fn only_backend_changed(old: RegistryView, new: RegistryView, b: int) -> bool {
    &&& new.models == old.models
    &&& new.backends.len() == old.backends.len()
    &&& 0 <= b < old.backends.len()
    &&& forall|k: int| 0 <= k < old.backends.len() && k != b ==> new.backends[k] == old.backends[k]
    &&& new.backends[b]@.endpoint == old.backends[b]@.endpoint
    &&& new.backends[b]@.backend == old.backends[b]@.backend
}

/// Changing only the admission and breaker state of one model keeps the
/// registry invariant.
pub proof fn lemma_model_state_change_keeps_wf(old: RegistryView, new: RegistryView, i: int)
    requires
        old.wf(),
        only_model_state_changed(old, new, i),
    ensures
        new.wf(),
{
    assert forall|j: int| 0 <= j < new.models.len() implies new.models[j].name == old.models[j].name
        && new.models[j].cfg == old.models[j].cfg && new.models[j].health == old.models[j].health by {
        if j != i {
            assert(new.models[j] == old.models[j]);
        }
    }
}

/// Changing only the state (not the endpoint) of one endpoint record keeps the
/// registry invariant.
pub proof fn lemma_backend_change_keeps_wf(old: RegistryView, new: RegistryView, b: int)
    requires
        old.wf(),
        only_backend_changed(old, new, b),
    ensures
        new.wf(),
{
    assert forall|k: int| 0 <= k < new.backends.len() implies new.backends[k]@.endpoint
        == old.backends[k]@.endpoint by {
        if k != b {
            assert(new.backends[k] == old.backends[k]);
        }
    }
}

/// Models that use the same endpoint share one health record.
pub proof fn lemma_shared_health(r: RegistryView, i: int, j: int)
    requires
        r.wf(),
        0 <= i < r.models.len(),
        0 <= j < r.models.len(),
        r.models[i].cfg.endpoint@ == r.models[j].cfg.endpoint@,
    ensures
        r.models[i].health == r.models[j].health,
{
    let hi = r.models[i].health as int;
    let hj = r.models[j].health as int;
    if hi != hj {
        assert(r.backends[hi]@.endpoint != r.backends[hj]@.endpoint);
    }
}

pub struct Registry {
    models: Vec<ModelRuntime>,
    /// Unique backend endpoints.
    backends: Vec<BackendHealth>,
}

impl View for Registry {
    type V = RegistryView;

    closed spec fn view(&self) -> RegistryView {
        RegistryView { models: self.models@, backends: self.backends@ }
    }
}

impl Registry {
    /// The invariant of every registry (see [`RegistryView::wf`]).
    #[verifier::type_invariant]
    pub open spec fn keeps_invariant(self) -> bool {
        self@.wf()
    }

    fn find_backend_in(backends: &Vec<BackendHealth>, endpoint: &String) -> (r: Option<usize>)
        ensures
            r matches Some(i) ==> i < backends@.len() && backends@[i as int]@.endpoint
                == endpoint@,
            r is None ==> forall|i: int|
                0 <= i < backends@.len() ==> (#[trigger] backends@[i])@.endpoint != endpoint@,
    {
        let mut i: usize = 0;
        while i < backends.len()
            invariant
                i <= backends@.len(),
                forall|k: int| 0 <= k < i ==> (#[trigger] backends@[k])@.endpoint != endpoint@,
            decreases backends@.len() - i,
        {
            if backends[i].endpoint == *endpoint {
                return Some(i);
            }
            i = i + 1;
        }
        None
    }

    /// Looks a model up by name.
    pub fn find_model(&self, name: &str) -> (r: Option<usize>)
        ensures
            r matches Some(i) ==> i < self@.models.len() && self@.models[i as int].name@ == name@,
            r is None <==> !self@.has_model(name@),
    {
        let key = name.to_owned();
        let mut i: usize = 0;
        while i < self.models.len()
            invariant
                i <= self@.models.len(),
                key@ == name@,
                forall|k: int| 0 <= k < i ==> (#[trigger] self@.models[k]).name@ != name@,
            decreases self@.models.len() - i,
        {
            if self.models[i].name == key {
                return Some(i);
            }
            i = i + 1;
        }
        None
    }

    /// The runtime of the model named `name`, if any.
    pub fn model(&self, name: &str) -> (r: Option<&ModelRuntime>)
        ensures
            r matches Some(m) ==> m.name@ == name@ && exists|i: int|
                0 <= i < self@.models.len() && self@.models[i] == *m,
            r is None <==> !self@.has_model(name@),
    {
        match self.find_model(name) {
            Some(i) => Some(&self.models[i]),
            None => None,
        }
    }

    /// All model runtimes, in configured order.
    pub fn models(&self) -> (r: &Vec<ModelRuntime>)
        ensures
            r@ == self@.models,
    {
        &self.models
    }

    /// All endpoint records.
    pub fn backends(&self) -> (r: &Vec<BackendHealth>)
        ensures
            r@ == self@.backends,
    {
        &self.backends
    }

    /// Looks an endpoint record up by endpoint URL.
    pub fn find_backend(&self, endpoint: &str) -> (r: Option<usize>)
        ensures
            r matches Some(b) ==> b < self@.backends.len() && self@.backends[b as int]@.endpoint
                == endpoint@,
            r is None <==> !self@.has_backend(endpoint@),
    {
        let key = endpoint.to_owned();
        Self::find_backend_in(&self.backends, &key)
    }

    /// The endpoint record with endpoint URL `endpoint`, if any.
    pub fn backend(&self, endpoint: &str) -> (r: Option<&BackendHealth>)
        ensures
            r matches Some(h) ==> h@.endpoint == endpoint@ && exists|b: int|
                0 <= b < self@.backends.len() && self@.backends[b] == *h,
            r is None <==> !self@.has_backend(endpoint@),
    {
        match self.find_backend(endpoint) {
            Some(b) => Some(&self.backends[b]),
            None => None,
        }
    }

    /// The indices of all models, ordered by name (byte order).
    pub fn name_order(&self) -> (order: Vec<usize>)
        ensures
            self@.is_name_order(order@),
    {
        proof {
            use_type_invariant(self);
        }
        let ghost r = self@;
        let n = self.models.len();
        let mut order: Vec<usize> = Vec::new();
        let mut i: usize = 0;
        while i < n
            invariant
                r == self@,
                r.wf(),
                n == r.models.len(),
                i <= n,
                order@.len() == i,
                forall|k: int| 0 <= k < order@.len() ==> #[trigger] order@[k] < i,
                forall|k: int, l: int|
                    0 <= k < l < order@.len() ==> lex_lt(
                        r.name_bytes(#[trigger] order@[k] as int),
                        r.name_bytes(#[trigger] order@[l] as int),
                    ),
                forall|j: int| 0 <= j < i ==> #[trigger] appears_in(order@, j),
            decreases n - i,
        {
            let key = self.models[i].name.as_str().as_bytes();
            let mut p: usize = 0;
            while p < order.len() && bytes_lt(self.models[order[p]].name.as_str().as_bytes(), key)
                invariant
                    r == self@,
                    i < n,
                    n == r.models.len(),
                    key@ == r.name_bytes(i as int),
                    p <= order@.len(),
                    forall|k: int| 0 <= k < order@.len() ==> #[trigger] order@[k] < i,
                    forall|k: int|
                        0 <= k < p ==> lex_lt(
                            r.name_bytes(#[trigger] order@[k] as int),
                            r.name_bytes(i as int),
                        ),
                decreases order@.len() - p,
            {
                p = p + 1;
            }
            let ghost old_order = order@;
            proof {
                // Every entry from p on comes after the new name.
                assert forall|q: int| p <= q < old_order.len() implies lex_lt(
                    r.name_bytes(i as int),
                    r.name_bytes(#[trigger] old_order[q] as int),
                ) by {
                    let a = r.name_bytes(old_order[p as int] as int);
                    let b = r.name_bytes(i as int);
                    assert(!lex_lt(a, b));
                    if a == b {
                        encode_utf8_decode_utf8(r.models[old_order[p as int] as int].name@);
                        encode_utf8_decode_utf8(r.models[i as int].name@);
                        assert(r.models[old_order[p as int] as int].name@ == r.models[i as int].name@);
                    }
                    lemma_lex_lt_total(a, b);
                    if q > p {
                        lemma_lex_lt_transitive(b, a, r.name_bytes(old_order[q] as int));
                    }
                }
            }
            order.insert(p, i);
            proof {
                old_order.insert_ensures(p as int, i);
                assert forall|k: int, l: int| 0 <= k < l < order@.len() implies lex_lt(
                    r.name_bytes(#[trigger] order@[k] as int),
                    r.name_bytes(#[trigger] order@[l] as int),
                ) by {
                    if l < p {
                        assert(order@[k] == old_order[k] && order@[l] == old_order[l]);
                    } else if l == p {
                        assert(order@[k] == old_order[k]);
                    } else if k == p {
                        assert(order@[l] == old_order[l - 1]);
                    } else if k < p {
                        assert(order@[k] == old_order[k] && order@[l] == old_order[l - 1]);
                        lemma_lex_lt_transitive(
                            r.name_bytes(old_order[k] as int),
                            r.name_bytes(i as int),
                            r.name_bytes(old_order[l - 1] as int),
                        );
                    } else {
                        assert(order@[k] == old_order[k - 1] && order@[l] == old_order[l - 1]);
                    }
                }
                assert forall|j: int| 0 <= j < i + 1 implies #[trigger] appears_in(order@, j) by {
                    if j == i {
                        assert(order@[p as int] == j);
                    } else {
                        assert(appears_in(old_order, j));
                        let k = choose|k: int| 0 <= k < old_order.len() && old_order[k] == j;
                        if k < p {
                            assert(order@[k] == j);
                        } else {
                            assert(order@[k + 1] == j);
                        }
                    }
                }
            }
            i = i + 1;
        }
        order
    }

    /// The names of all models, sorted (byte order).
    pub fn model_names(&self) -> (names: Vec<String>)
        ensures
            exists|order: Seq<usize>|
                self@.is_name_order(order) && names@.len() == order.len() && forall|k: int|
                    0 <= k < order.len() ==> (#[trigger] names@[k])@ == self@.models[order[k] as int].name@,
    {
        let order = self.name_order();
        let mut names: Vec<String> = Vec::new();
        let mut k: usize = 0;
        while k < order.len()
            invariant
                self@.is_name_order(order@),
                k <= order@.len(),
                names@.len() == k,
                forall|x: int|
                    0 <= x < k ==> (#[trigger] names@[x])@ == self@.models[order@[x] as int].name@,
            decreases order@.len() - k,
        {
            names.push(self.models[order[k]].name.clone());
            k = k + 1;
        }
        names
    }

    /// The health record of model `i`.
    pub fn health_of(&self, i: usize) -> (h: &BackendHealth)
        requires
            i < self@.models.len(),
        ensures
            *h == self@.model_health(i as int),
    {
        proof {
            use_type_invariant(self);
        }
        &self.backends[self.models[i].health]
    }

    /// Asks model `i`'s breaker whether a request may pass (see
    /// [`CircuitBreaker::allow`]).
    pub fn breaker_allow(&mut self, i: usize) -> (r: bool)
        requires
            i < old(self)@.models.len(),
        ensures
            only_breaker_changed(old(self)@, final(self)@, i as int),
            exists|e: u128|
                (final(self)@.models[i as int].breaker@, r) == #[trigger] old(
                    self,
                )@.models[i as int].breaker@.after_allow(e),
    {
        proof {
            use_type_invariant(&*self);
        }
        let ghost before = self@;
        let mut models = Vec::new();
        std::mem::swap(&mut models, &mut self.models);
        let r = models[i].breaker.allow();
        proof {
            lemma_model_state_change_keeps_wf(
                before,
                RegistryView { models: models@, backends: self.backends@ },
                i as int,
            );
        }
        self.models = models;
        r
    }

    /// Records a success with model `i`'s breaker.
    pub fn breaker_on_success(&mut self, i: usize)
        requires
            i < old(self)@.models.len(),
        ensures
            only_breaker_changed(old(self)@, final(self)@, i as int),
            final(self)@.models[i as int].breaker@ == old(self)@.models[i as int].breaker@.after_success(),
    {
        proof {
            use_type_invariant(&*self);
        }
        let ghost before = self@;
        let mut models = Vec::new();
        std::mem::swap(&mut models, &mut self.models);
        models[i].breaker.on_success();
        proof {
            lemma_model_state_change_keeps_wf(
                before,
                RegistryView { models: models@, backends: self.backends@ },
                i as int,
            );
        }
        self.models = models;
    }

    /// Records a backend failure with model `i`'s breaker.
    pub fn breaker_on_failure(&mut self, i: usize)
        requires
            i < old(self)@.models.len(),
        ensures
            only_breaker_changed(old(self)@, final(self)@, i as int),
            exists|now: Instant|
                final(self)@.models[i as int].breaker@ == #[trigger] old(
                    self,
                )@.models[i as int].breaker@.after_failure(now),
    {
        proof {
            use_type_invariant(&*self);
        }
        let ghost before = self@;
        let mut models = Vec::new();
        std::mem::swap(&mut models, &mut self.models);
        models[i].breaker.on_failure();
        proof {
            lemma_model_state_change_keeps_wf(
                before,
                RegistryView { models: models@, backends: self.backends@ },
                i as int,
            );
        }
        self.models = models;
    }

    /// Model `i`: a request asks for a place in the waiting room.
    pub fn enter_queue(&mut self, i: usize) -> (r: Result<(), AdmitReject>)
        requires
            i < old(self)@.models.len(),
        ensures
            only_admission_changed(old(self)@, final(self)@, i as int),
            (final(self)@.models[i as int].admission@, r) == old(self)@.models[i as int].admission@.after_enter(),
    {
        proof {
            use_type_invariant(&*self);
        }
        let ghost before = self@;
        let mut models = Vec::new();
        std::mem::swap(&mut models, &mut self.models);
        let r = models[i].admission.enter_queue();
        proof {
            lemma_model_state_change_keeps_wf(
                before,
                RegistryView { models: models@, backends: self.backends@ },
                i as int,
            );
        }
        self.models = models;
        r
    }

    /// Model `i`: a waiting request leaves the waiting room with `outcome`.
    pub fn leave_queue(&mut self, i: usize, outcome: AcquireOutcome) -> (r: Result<(), AdmitReject>)
        requires
            i < old(self)@.models.len(),
            old(self)@.models[i as int].admission@.queue_depth > 0,
            outcome == AcquireOutcome::Acquired ==> old(self)@.models[i as int].admission@.inflight
                < old(self)@.models[i as int].admission@.max_concurrency,
        ensures
            only_admission_changed(old(self)@, final(self)@, i as int),
            (final(self)@.models[i as int].admission@, r) == old(self)@.models[i as int].admission@.after_leave(outcome),
    {
        proof {
            use_type_invariant(&*self);
        }
        let ghost before = self@;
        let mut models = Vec::new();
        std::mem::swap(&mut models, &mut self.models);
        let r = models[i].admission.leave_queue(outcome);
        proof {
            lemma_model_state_change_keeps_wf(
                before,
                RegistryView { models: models@, backends: self.backends@ },
                i as int,
            );
        }
        self.models = models;
        r
    }

    /// Model `i`: an admitted request gives its permit back.
    pub fn release(&mut self, i: usize)
        requires
            i < old(self)@.models.len(),
            old(self)@.models[i as int].admission@.inflight > 0,
        ensures
            only_admission_changed(old(self)@, final(self)@, i as int),
            final(self)@.models[i as int].admission@ == old(self)@.models[i as int].admission@.after_release(),
    {
        proof {
            use_type_invariant(&*self);
        }
        let ghost before = self@;
        let mut models = Vec::new();
        std::mem::swap(&mut models, &mut self.models);
        models[i].admission.release();
        proof {
            lemma_model_state_change_keeps_wf(
                before,
                RegistryView { models: models@, backends: self.backends@ },
                i as int,
            );
        }
        self.models = models;
    }

    /// Turns the admin kill-switch of endpoint record `b` on or off.
    pub fn set_backend_enabled_at(&mut self, b: usize, enabled: bool)
        requires
            b < old(self)@.backends.len(),
        ensures
            only_backend_changed(old(self)@, final(self)@, b as int),
            final(self)@.backends[b as int]@ == (BackendHealthView {
                enabled,
                ..old(self)@.backends[b as int]@
            }),
    {
        proof {
            use_type_invariant(&*self);
        }
        let ghost before = self@;
        let mut models = Vec::new();
        std::mem::swap(&mut models, &mut self.models);
        let mut backends = Vec::new();
        std::mem::swap(&mut backends, &mut self.backends);
        backends[b].set_enabled(enabled);
        proof {
            lemma_backend_change_keeps_wf(
                before,
                RegistryView { models: models@, backends: backends@ },
                b as int,
            );
        }
        self.backends = backends;
        self.models = models;
    }

    /// Records a health-poll result for endpoint record `b`.
    pub fn record_poll_at(&mut self, b: usize, ok: bool, unhealthy_after: usize)
        requires
            b < old(self)@.backends.len(),
            !ok ==> old(self)@.backends[b as int]@.consecutive_poll_failures < usize::MAX,
        ensures
            only_backend_changed(old(self)@, final(self)@, b as int),
            final(self)@.backends[b as int]@ == old(self)@.backends[b as int]@.after_poll(
                ok,
                unhealthy_after,
            ),
    {
        proof {
            use_type_invariant(&*self);
        }
        let ghost before = self@;
        let mut models = Vec::new();
        std::mem::swap(&mut models, &mut self.models);
        let mut backends = Vec::new();
        std::mem::swap(&mut backends, &mut self.backends);
        backends[b].record_poll(ok, unhealthy_after);
        proof {
            lemma_backend_change_keeps_wf(
                before,
                RegistryView { models: models@, backends: backends@ },
                b as int,
            );
        }
        self.backends = backends;
        self.models = models;
    }

    /// Builds the registry from a configuration whose model names are
    /// distinct.
    pub fn build(config: &Config) -> (r: Registry)
        requires
            config.names_unique(),
        ensures
            built_from(r@, *config),
    {
        let mut backends: Vec<BackendHealth> = Vec::new();
        let mut models: Vec<ModelRuntime> = Vec::new();
        let queue_timeout = config.queue_timeout();
        let n = config.models.len();
        let mut i: usize = 0;
        while i < n
            invariant
                n == config.models@.len(),
                config.names_unique(),
                queue_timeout == millis_to_nanos(config.admission.queue_timeout_ms),
                i <= n,
                models@.len() == i,
                (RegistryView { models: models@, backends: backends@ }).wf(),
                forall|k: int|
                    0 <= k < i ==> fresh_model(*config, #[trigger] models@[k], config.models@[k]),
                forall|b: int| 0 <= b < backends@.len() ==> fresh_backend(*config, #[trigger] backends@[b]),
                forall|b: int|
                    #![trigger backends@[b]]
                    0 <= b < backends@.len() ==> exists|j: int|
                        #![trigger config.models@[j]]
                        0 <= j < i && config.models@[j].1.endpoint@ == backends@[b]@.endpoint,
            decreases n - i,
        {
            let entry = &config.models[i];
            let m = &entry.1;
            let found = Self::find_backend_in(&backends, &m.endpoint);
            let health = match found {
                Some(b) => b,
                None => {
                    proof {
                        assert(first_with_endpoint(*config, i as int)) by {
                            assert forall|k: int| 0 <= k < i implies (#[trigger] config.models@[k]).1.endpoint@
                                != config.models@[i as int].1.endpoint@ by {
                                let hk = models@[k].health as int;
                                assert(backends@[hk]@.endpoint == models@[k].cfg.endpoint@);
                            }
                        }
                    }
                    let ghost old_backends = backends@;
                    backends.push(BackendHealth::new(m.backend, m.endpoint.clone()));
                    proof {
                        let nb = backends@.len() - 1;
                        assert(backends@[nb]@.endpoint == config.models@[i as int].1.endpoint@);
                        assert(fresh_backend(*config, backends@[nb]));
                        assert forall|b: int| #![trigger backends@[b]] 0 <= b < backends@.len() implies exists|j: int|
                            #![trigger config.models@[j]]
                            0 <= j < i + 1 && config.models@[j].1.endpoint@
                                == backends@[b]@.endpoint by {
                            if b < nb {
                                assert(backends@[b] == old_backends[b]);
                            } else {
                                assert(config.models@[i as int].1.endpoint@ == backends@[b]@.endpoint);
                            }
                        }
                    }
                    backends.len() - 1
                },
            };
            let admission = Admission::new(
                m.max_concurrency,
                config.admission.queue_capacity,
                queue_timeout,
            );
            let breaker = CircuitBreaker::new(&config.admission.circuit_breaker);
            let ghost old_models = models@;
            models.push(
                ModelRuntime {
                    name: entry.0.clone(),
                    cfg: m.copied(),
                    admission,
                    breaker,
                    health,
                },
            );
            proof {
                assert(forall|k: int| 0 <= k < i ==> models@[k] == old_models[k]);
                assert forall|x: int, y: int|
                    0 <= x < models@.len() && 0 <= y < models@.len() && x != y implies #[trigger] models@[x].name@
                    != #[trigger] models@[y].name@ by {
                    assert(models@[x].name@ == config.models@[x].0@);
                    assert(models@[y].name@ == config.models@[y].0@);
                }
                assert forall|b: int| #![trigger backends@[b]] 0 <= b < backends@.len() implies exists|j: int|
                    #![trigger config.models@[j]]
                    0 <= j < i + 1 && config.models@[j].1.endpoint@ == backends@[b]@.endpoint by {
                    if found is Some {
                        let j = choose|j: int|
                            #![trigger config.models@[j]]
                            0 <= j < i && config.models@[j].1.endpoint@ == backends@[b]@.endpoint;
                        assert(config.models@[j].1.endpoint@ == backends@[b]@.endpoint);
                    }
                }
            }
            i = i + 1;
        }
        Registry { models, backends }
    }
}

} // verus!
