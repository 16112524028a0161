//! Unified error model for the gateway.
//!
//! Every failure the gateway can produce maps to exactly one HTTP status and a
//! stable body `{ "error": { "code", "message", "request_id" } }`, so clients
//! can branch on `code` rather than parsing prose.

use vstd::prelude::*;

verus! {

/// Machine-stable error codes. These are part of the API contract.
#[derive(Debug, Clone, Copy, PartialEq, Eq, Structural)]
pub enum ErrorCode {
    /// Request body/params failed validation.
    BadRequest,
    /// Model name is not in the registry.
    UnknownModel,
    /// Request larger than the model's configured limit.
    PayloadTooLarge,
    /// Per-model queue is full — the gateway is shedding load.
    QueueFull,
    /// Request waited in the queue longer than the queue timeout.
    QueueTimeout,
    /// Global in-flight cap reached.
    Overloaded,
    /// Circuit breaker is open for this model's backend.
    CircuitOpen,
    /// Selected backend is currently unhealthy.
    BackendUnhealthy,
    /// Upstream call exceeded the request deadline.
    DeadlineExceeded,
    /// Upstream returned an error or was unreachable.
    UpstreamError,
    /// Upstream produced a malformed/unparseable response.
    UpstreamMalformed,
    /// Anything unexpected inside the gateway.
    Internal,
}

impl ErrorCode {
    /// The stable wire name of the code.
    pub open spec fn label(self) -> Seq<char> {
        match self {
            ErrorCode::BadRequest => "bad_request"@,
            ErrorCode::UnknownModel => "unknown_model"@,
            ErrorCode::PayloadTooLarge => "payload_too_large"@,
            ErrorCode::QueueFull => "queue_full"@,
            ErrorCode::QueueTimeout => "queue_timeout"@,
            ErrorCode::Overloaded => "overloaded"@,
            ErrorCode::CircuitOpen => "circuit_open"@,
            ErrorCode::BackendUnhealthy => "backend_unhealthy"@,
            ErrorCode::DeadlineExceeded => "deadline_exceeded"@,
            ErrorCode::UpstreamError => "upstream_error"@,
            ErrorCode::UpstreamMalformed => "upstream_malformed"@,
            ErrorCode::Internal => "internal"@,
        }
    }

    /// The HTTP status the code is answered with.
    pub open spec fn http_status(self) -> u16 {
        match self {
            ErrorCode::BadRequest => 400,
            ErrorCode::UnknownModel => 404,
            ErrorCode::PayloadTooLarge => 413,
            // Load-shedding: 429 tells clients to back off and retry later.
            ErrorCode::QueueFull | ErrorCode::QueueTimeout => 429,
            // Capacity/health problems: 503 is retriable against another replica.
            ErrorCode::Overloaded
            | ErrorCode::CircuitOpen
            | ErrorCode::BackendUnhealthy
            | ErrorCode::UpstreamError => 503,
            ErrorCode::DeadlineExceeded => 504,
            ErrorCode::UpstreamMalformed | ErrorCode::Internal => 502,
        }
    }

    pub fn as_str(self) -> (s: &'static str)
        ensures
            s@ == self.label(),
    {
        match self {
            ErrorCode::BadRequest => "bad_request",
            ErrorCode::UnknownModel => "unknown_model",
            ErrorCode::PayloadTooLarge => "payload_too_large",
            ErrorCode::QueueFull => "queue_full",
            ErrorCode::QueueTimeout => "queue_timeout",
            ErrorCode::Overloaded => "overloaded",
            ErrorCode::CircuitOpen => "circuit_open",
            ErrorCode::BackendUnhealthy => "backend_unhealthy",
            ErrorCode::DeadlineExceeded => "deadline_exceeded",
            ErrorCode::UpstreamError => "upstream_error",
            ErrorCode::UpstreamMalformed => "upstream_malformed",
            ErrorCode::Internal => "internal",
        }
    }

    /// The HTTP status code (as a number) the error is answered with.
    pub fn status(self) -> (code: u16)
        ensures
            code == self.http_status(),
    {
        match self {
            ErrorCode::BadRequest => 400,
            ErrorCode::UnknownModel => 404,
            ErrorCode::PayloadTooLarge => 413,
            ErrorCode::QueueFull | ErrorCode::QueueTimeout => 429,
            ErrorCode::Overloaded
            | ErrorCode::CircuitOpen
            | ErrorCode::BackendUnhealthy
            | ErrorCode::UpstreamError => 503,
            ErrorCode::DeadlineExceeded => 504,
            ErrorCode::UpstreamMalformed | ErrorCode::Internal => 502,
        }
    }
}

/// Distinct codes have distinct wire names, so a client can always tell them
/// apart by `code`.
pub proof fn lemma_codes_distinct(a: ErrorCode, b: ErrorCode)
    requires
        a != b,
    ensures
        a.label() != b.label(),
{
    reveal_strlit("bad_request");
    reveal_strlit("unknown_model");
    reveal_strlit("payload_too_large");
    reveal_strlit("queue_full");
    reveal_strlit("queue_timeout");
    reveal_strlit("overloaded");
    reveal_strlit("circuit_open");
    reveal_strlit("backend_unhealthy");
    reveal_strlit("deadline_exceeded");
    reveal_strlit("upstream_error");
    reveal_strlit("upstream_malformed");
    reveal_strlit("internal");
    if a.label() == b.label() {
        assert(a.label().len() == b.label().len());
        assert(a.label()[0] == b.label()[0]);
        assert(a.label()[a.label().len() - 1] == b.label()[b.label().len() - 1]);
        assert(a.label()[1] == b.label()[1]);
        assert(a.label()[2] == b.label()[2]);
        assert(a.label()[9] == b.label()[9]);
    }
}

/// Load shedding answers 429, capacity and health problems answer 503, and
/// every code answers an error status (4xx or 5xx).
pub proof fn lemma_status_classes(c: ErrorCode)
    ensures
        400 <= c.http_status() < 600,
        (c == ErrorCode::QueueFull || c == ErrorCode::QueueTimeout) <==> c.http_status() == 429,
        (c == ErrorCode::Overloaded || c == ErrorCode::CircuitOpen || c
            == ErrorCode::BackendUnhealthy || c == ErrorCode::UpstreamError) <==> c.http_status()
            == 503,
{
}

/// A gateway error carrying its code, a human message, and (once known) the
/// request id so the response is self-describing for correlation with traces.
#[derive(Debug, Clone)]
pub struct GatewayError {
    pub code: ErrorCode,
    pub message: String,
    pub request_id: Option<String>,
}

/// The message of an unknown-model error for `name`.
pub open spec fn unknown_model_message(name: Seq<char>) -> Seq<char> {
    "unknown model '"@ + name + "'"@
}

impl GatewayError {
    pub fn new(code: ErrorCode, message: &str) -> (e: Self)
        ensures
            e.code == code,
            e.message@ == message@,
            e.request_id is None,
    {
        GatewayError { code, message: message.to_owned(), request_id: None }
    }

    /// The same error, attributed to request `id`.
    pub fn with_request_id(self, id: &str) -> (e: Self)
        ensures
            e.code == self.code,
            e.message == self.message,
            e.request_id matches Some(r) && r@ == id@,
    {
        GatewayError { code: self.code, message: self.message, request_id: Some(id.to_owned()) }
    }

    pub fn bad_request(msg: &str) -> (e: Self)
        ensures
            e.code == ErrorCode::BadRequest,
            e.message@ == msg@,
            e.request_id is None,
    {
        Self::new(ErrorCode::BadRequest, msg)
    }

    pub fn unknown_model(name: &str) -> (e: Self)
        ensures
            e.code == ErrorCode::UnknownModel,
            e.message@ == unknown_model_message(name@),
            e.request_id is None,
    {
        let mut message = String::from_str("unknown model '");
        message.append(name);
        message.append("'");
        GatewayError { code: ErrorCode::UnknownModel, message, request_id: None }
    }

    pub fn upstream(msg: &str) -> (e: Self)
        ensures
            e.code == ErrorCode::UpstreamError,
            e.message@ == msg@,
            e.request_id is None,
    {
        Self::new(ErrorCode::UpstreamError, msg)
    }

    pub fn internal(msg: &str) -> (e: Self)
        ensures
            e.code == ErrorCode::Internal,
            e.message@ == msg@,
            e.request_id is None,
    {
        Self::new(ErrorCode::Internal, msg)
    }

    /// The one-line rendering `"<code>: <message>"`.
    pub fn to_display_string(&self) -> (s: String)
        ensures
            s@ == self.code.label() + ": "@ + self.message@,
    {
        let mut s = String::from_str(self.code.as_str());
        s.append(": ");
        s.append(self.message.as_str());
        s
    }
}

/// The result of an operation that fails with a gateway error.
pub type GatewayResult<T> = Result<T, GatewayError>;

} // verus!
