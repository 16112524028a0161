//! The admission and accounting policy every request flows through.
//!
//! The reliability guarantees are enforced in a fixed order:
//!
//! 1. Reject if the global in-flight cap is reached (`Overloaded`).
//! 2. Reject if the target backend is disabled or unhealthy.
//! 3. Reject fast if the circuit breaker is open.
//! 4. Admit through the per-model bounded queue (or reject `QueueFull`/
//!    `QueueTimeout`).
//! 5. Run the upstream call (with at most one retry, as the model's retry
//!    policy allows).
//! 6. Record breaker success/failure.
//!
//! The server holds the permits and performs the waiting and the upstream
//! call; every decision is made here.

use crate::admission::backpressure::AdmitReject;
use crate::clients::UpstreamError;
use crate::config::RetryConfig;
use crate::error::{ErrorCode, GatewayError};
use crate::routing::classifier::Route;
use crate::routing::registry::{only_breaker_changed, Registry};
use crate::text::{append_decimal, decimal};
use std::time::Instant;
use vstd::prelude::*;

verus! {

/// `e` is the error with code `code`, message `message` and request id `rid`.
pub open spec fn error_is(e: GatewayError, code: ErrorCode, message: Seq<char>, rid: Seq<char>) -> bool {
    &&& e.code == code
    &&& e.message@ == message
    &&& e.request_id matches Some(r) && r@ == rid
}

/// Steps 1–3 for model `route.model`. `global_acquired` tells whether the
/// global in-flight permit was obtained. The checks run in order and the
/// first that fails decides the error; only the breaker check changes state.
pub fn admit_checks(
    registry: &mut Registry,
    route: &Route,
    global_acquired: bool,
    request_id: &str,
) -> (r: Result<(), GatewayError>)
    requires
        route.model < old(registry)@.models.len(),
    ensures
        !global_acquired ==> final(registry)@ == old(registry)@ && (r matches Err(e) && error_is(
            e,
            ErrorCode::Overloaded,
            "gateway at global capacity"@,
            request_id@,
        )),
        global_acquired && !old(registry)@.model_routable(route.model as int) ==> final(registry)@
            == old(registry)@ && (r matches Err(e) && error_is(
            e,
            ErrorCode::BackendUnhealthy,
            if !old(registry)@.model_health(route.model as int)@.enabled {
                "backend administratively disabled"@
            } else {
                "backend unhealthy"@
            },
            request_id@,
        )),
        global_acquired && old(registry)@.model_routable(route.model as int) ==> {
            &&& only_breaker_changed(old(registry)@, final(registry)@, route.model as int)
            &&& exists|e: u128|
                #![trigger old(registry)@.models[route.model as int].breaker@.after_allow(e)]
                {
                    let (b, allowed) = old(registry)@.models[route.model as int].breaker@.after_allow(e);
                    &&& final(registry)@.models[route.model as int].breaker@ == b
                    &&& allowed ==> r is Ok
                    &&& !allowed ==> (r matches Err(err) && error_is(
                        err,
                        ErrorCode::CircuitOpen,
                        "circuit breaker open"@,
                        request_id@,
                    ))
                }
        },
{
    // 1. Global cap.
    if !global_acquired {
        return Err(
            GatewayError::new(ErrorCode::Overloaded, "gateway at global capacity").with_request_id(
                request_id,
            ),
        );
    }
    // 2. Backend health / admin kill-switch.
    let health = registry.health_of(route.model);
    if !health.is_routable() {
        let reason = if !health.is_enabled() {
            "backend administratively disabled"
        } else {
            "backend unhealthy"
        };
        return Err(GatewayError::new(ErrorCode::BackendUnhealthy, reason).with_request_id(request_id));
    }
    // 3. Circuit breaker.
    if !registry.breaker_allow(route.model) {
        return Err(
            GatewayError::new(ErrorCode::CircuitOpen, "circuit breaker open").with_request_id(
                request_id,
            ),
        );
    }
    Ok(())
}

/// Step 4's rejections, as client-facing errors: a full waiting room and a
/// wait that timed out shed load (429); a closed permit source means the
/// gateway is shutting down.
pub fn map_admit_reject(reject: AdmitReject, request_id: &str) -> (e: GatewayError)
    ensures
        reject == AdmitReject::QueueFull ==> error_is(
            e,
            ErrorCode::QueueFull,
            "admission queue full"@,
            request_id@,
        ),
        reject == AdmitReject::QueueTimeout ==> error_is(
            e,
            ErrorCode::QueueTimeout,
            "timed out waiting for capacity"@,
            request_id@,
        ),
        reject == AdmitReject::Closed ==> error_is(
            e,
            ErrorCode::Overloaded,
            "gateway shutting down"@,
            request_id@,
        ),
{
    match reject {
        AdmitReject::QueueFull => GatewayError::new(
            ErrorCode::QueueFull,
            "admission queue full",
        ).with_request_id(request_id),
        AdmitReject::QueueTimeout => GatewayError::new(
            ErrorCode::QueueTimeout,
            "timed out waiting for capacity",
        ).with_request_id(request_id),
        AdmitReject::Closed => GatewayError::new(
            ErrorCode::Overloaded,
            "gateway shutting down",
        ).with_request_id(request_id),
    }
}

/// A failed attempt number `attempt` (counting from 0) may be retried: only
/// the first attempt is ever retried (a call gets at most one retry), only
/// when the model's policy allows a retry, and, under the default policy,
/// only after a connection-level failure.
pub open spec fn may_retry(attempt: usize, retry: RetryConfig, e: UpstreamError) -> bool {
    &&& attempt == 0
    &&& attempt < retry.max_retries
    &&& (!retry.only_on_connect_error || e is Connect)
}

/// Whether the upstream call, having failed with `e` on attempt `attempt`
/// (counting from 0), is tried again.
pub fn should_retry(attempt: usize, retry: &RetryConfig, e: &UpstreamError) -> (b: bool)
    ensures
        b == may_retry(attempt, *retry, *e),
{
    attempt == 0 && attempt < retry.max_retries && (!retry.only_on_connect_error
        || e.is_retriable_connect())
}

/// The policy a streamed request runs under: the model's policy with no
/// retries.
pub open spec fn stream_policy(retry: RetryConfig) -> RetryConfig {
    RetryConfig { max_retries: 0, ..retry }
}

/// The retry policy a request runs under: a streamed reply is never retried
/// (the client may already hold part of it); any other request runs under the
/// model's policy.
pub fn retry_policy_for(retry: &RetryConfig, stream: bool) -> (r: RetryConfig)
    ensures
        stream ==> r == stream_policy(*retry),
        !stream ==> r == *retry,
{
    if stream {
        RetryConfig { max_retries: 0, only_on_connect_error: retry.only_on_connect_error }
    } else {
        retry.copied()
    }
}

/// A streamed request is never retried, whatever the model's policy, the
/// attempt and the failure.
pub proof fn lemma_stream_never_retried(retry: RetryConfig, attempt: usize, e: UpstreamError)
    ensures
        !may_retry(attempt, stream_policy(retry), e),
{
}

/// An upstream call is made at most twice, and never more than
/// `max_retries + 1` times; a policy that retries only connection failures
/// never retries anything else, and a policy without retries never retries.
pub proof fn lemma_retry_bounded(attempt: usize, retry: RetryConfig, e: UpstreamError)
    ensures
        may_retry(attempt, retry, e) ==> attempt + 1 <= retry.max_retries && attempt + 1 <= 1,
        retry.only_on_connect_error && !(e is Connect) ==> !may_retry(attempt, retry, e),
        retry.max_retries == 0 ==> !may_retry(attempt, retry, e),
{
}

/// How a completed request is counted: the `status` label of its request
/// counter (`ok` or `error`) and, for a failed request, the failure-kind label
/// of its backend-error counter. Every completed request also gets one latency
/// observation.
#[derive(Debug, Clone, Copy, PartialEq, Eq)]
pub struct Accounting {
    pub status: &'static str,
    pub error_kind: Option<&'static str>,
}

/// Records the outcome of a completed request with the model's breaker: a
/// success closes the loop on a trial; a backend fault counts against the
/// breaker; a client-side (4xx) rejection leaves it alone. Returns how the
/// request is counted: a success as `ok` with no backend error; a failure as
/// `error`, with one backend error of its kind.
pub fn record_result(registry: &mut Registry, route: &Route, outcome: Result<(), &UpstreamError>) -> (acc: Accounting)
    requires
        route.model < old(registry)@.models.len(),
    ensures
        only_breaker_changed(old(registry)@, final(registry)@, route.model as int),
        outcome is Ok ==> final(registry)@.models[route.model as int].breaker@ == old(
            registry,
        )@.models[route.model as int].breaker@.after_success(),
        outcome matches Err(e) && e.backend_fault() ==> exists|now: Instant|
            final(registry)@.models[route.model as int].breaker@ == #[trigger] old(
                registry,
            )@.models[route.model as int].breaker@.after_failure(now),
        outcome matches Err(e) && !e.backend_fault() ==> final(registry)@ == old(registry)@,
        outcome is Ok ==> acc.status@ == "ok"@ && acc.error_kind is None,
        outcome matches Err(e) ==> acc.status@ == "error"@ && (acc.error_kind matches Some(k)
            && k@ == e.label()),
{
    match outcome {
        Ok(()) => {
            registry.breaker_on_success(route.model);
            Accounting { status: "ok", error_kind: None }
        },
        Err(e) => {
            if e.is_backend_fault() {
                registry.breaker_on_failure(route.model);
            }
            Accounting { status: "error", error_kind: Some(e.code_label()) }
        },
    }
}

/// The client-facing error for an upstream failure.
pub open spec fn upstream_error_reply(e: UpstreamError) -> (ErrorCode, Seq<char>) {
    match e {
        UpstreamError::Connect(m) => (ErrorCode::UpstreamError, m@),
        UpstreamError::Timeout => (ErrorCode::DeadlineExceeded, "upstream deadline exceeded"@),
        UpstreamError::ServerStatus { code, .. } => (
            ErrorCode::UpstreamError,
            "upstream returned "@ + decimal(code as nat),
        ),
        UpstreamError::ClientStatus { code, body } => (
            ErrorCode::BadRequest,
            "upstream rejected request ("@ + decimal(code as nat) + "): "@ + body@,
        ),
        UpstreamError::Malformed(m) => (ErrorCode::UpstreamMalformed, m@),
    }
}

/// Maps an upstream failure to a client-facing gateway error.
pub fn map_upstream_error(e: &UpstreamError, request_id: &str) -> (ge: GatewayError)
    ensures
        error_is(ge, upstream_error_reply(*e).0, upstream_error_reply(*e).1, request_id@),
{
    let ge = match e {
        UpstreamError::Connect(m) => GatewayError::new(ErrorCode::UpstreamError, m.as_str()),
        UpstreamError::Timeout => GatewayError::new(
            ErrorCode::DeadlineExceeded,
            "upstream deadline exceeded",
        ),
        UpstreamError::ServerStatus { code, .. } => {
            let mut m = String::from_str("upstream returned ");
            append_decimal(&mut m, *code as u64);
            GatewayError::new(ErrorCode::UpstreamError, m.as_str())
        },
        UpstreamError::ClientStatus { code, body } => {
            let mut m = String::from_str("upstream rejected request (");
            append_decimal(&mut m, *code as u64);
            m.append("): ");
            m.append(body.as_str());
            GatewayError::new(ErrorCode::BadRequest, m.as_str())
        },
        UpstreamError::Malformed(m) => GatewayError::new(ErrorCode::UpstreamMalformed, m.as_str()),
    };
    ge.with_request_id(request_id)
}

} // verus!
