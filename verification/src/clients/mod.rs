//! Backend failures and how they are classified.
//!
//! Both backends speak HTTP: Triton via the KServe v2 REST inference protocol,
//! Dynamo via its OpenAI-compatible frontend. Failures talking to them are
//! classified into [`UpstreamError`] so the pipeline can decide what is
//! retriable and what should trip the circuit breaker.

pub mod dynamo;
pub mod triton;

use crate::text::{append_decimal, decimal};
use vstd::prelude::*;

verus! {

/// A failure talking to a backend, classified by what it means for retry and
/// circuit-breaker accounting.
#[derive(Debug)]
pub enum UpstreamError {
    /// Could not establish/complete the connection. Safe to retry for
    /// idempotent requests; counts as a breaker failure.
    Connect(String),
    /// The upstream did not respond within the deadline. Breaker failure.
    Timeout,
    /// Upstream returned a 5xx. Breaker failure (backend is unhealthy).
    ServerStatus { code: u16, body: String },
    /// Upstream returned a 4xx. The client's request is at fault — surfaced to
    /// the caller but does NOT trip the breaker.
    ClientStatus { code: u16, body: String },
    /// Response could not be parsed. Breaker failure (backend misbehaving).
    Malformed(String),
}

impl UpstreamError {
    /// The failure indicates backend ill-health (it trips the breaker).
    pub open spec fn backend_fault(&self) -> bool {
        !(self is ClientStatus)
    }

    /// The stable metric label of the failure kind.
    pub open spec fn label(&self) -> Seq<char> {
        match self {
            UpstreamError::Connect(_) => "connect"@,
            UpstreamError::Timeout => "timeout"@,
            UpstreamError::ServerStatus { .. } => "server_status"@,
            UpstreamError::ClientStatus { .. } => "client_status"@,
            UpstreamError::Malformed(_) => "malformed"@,
        }
    }

    /// The human-readable rendering of the failure.
    pub open spec fn display(&self) -> Seq<char> {
        match self {
            UpstreamError::Connect(m) => "connect error: "@ + m@,
            UpstreamError::Timeout => "upstream timed out"@,
            UpstreamError::ServerStatus { code, .. } => "upstream returned "@ + decimal(
                *code as nat,
            ),
            UpstreamError::ClientStatus { code, .. } => "upstream rejected request ("@ + decimal(
                *code as nat,
            ) + ")"@,
            UpstreamError::Malformed(m) => "malformed upstream response: "@ + m@,
        }
    }

    /// Whether this failure indicates backend ill-health (should trip breaker).
    pub fn is_backend_fault(&self) -> (b: bool)
        ensures
            b == self.backend_fault(),
    {
        !matches!(self, UpstreamError::ClientStatus { .. })
    }

    /// Whether the request may be safely retried (connection-level only).
    pub fn is_retriable_connect(&self) -> (b: bool)
        ensures
            b == (self is Connect),
    {
        matches!(self, UpstreamError::Connect(_))
    }

    pub fn code_label(&self) -> (s: &'static str)
        ensures
            s@ == self.label(),
    {
        match self {
            UpstreamError::Connect(_) => "connect",
            UpstreamError::Timeout => "timeout",
            UpstreamError::ServerStatus { .. } => "server_status",
            UpstreamError::ClientStatus { .. } => "client_status",
            UpstreamError::Malformed(_) => "malformed",
        }
    }

    /// The human-readable rendering of the failure.
    pub fn to_display_string(&self) -> (s: String)
        ensures
            s@ == self.display(),
    {
        match self {
            UpstreamError::Connect(m) => {
                let mut s = String::from_str("connect error: ");
                s.append(m.as_str());
                s
            },
            UpstreamError::Timeout => String::from_str("upstream timed out"),
            UpstreamError::ServerStatus { code, .. } => {
                let mut s = String::from_str("upstream returned ");
                append_decimal(&mut s, *code as u64);
                s
            },
            UpstreamError::ClientStatus { code, .. } => {
                let mut s = String::from_str("upstream rejected request (");
                append_decimal(&mut s, *code as u64);
                s.append(")");
                s
            },
            UpstreamError::Malformed(m) => {
                let mut s = String::from_str("malformed upstream response: ");
                s.append(m.as_str());
                s
            },
        }
    }
}

/// Only a client-side (4xx) rejection leaves the breaker alone; every other
/// failure counts against the backend.
pub proof fn lemma_only_client_status_spares_breaker(e: UpstreamError)
    ensures
        !e.backend_fault() <==> (e is ClientStatus),
{
}

/// Converts an HTTP status into a classified error (the caller has already
/// checked that the status is not a success): 5xx is a server failure, any
/// other status a client-side rejection.
pub fn classify_status(code: u16, body: String) -> (e: UpstreamError)
    ensures
        500 <= code < 600 ==> e == (UpstreamError::ServerStatus { code, body }),
        !(500 <= code < 600) ==> e == (UpstreamError::ClientStatus { code, body }),
{
    if 500 <= code && code < 600 {
        UpstreamError::ServerStatus { code, body }
    } else {
        UpstreamError::ClientStatus { code, body }
    }
}

/// Classifies a transport failure: a timeout is `Timeout`, anything else is a
/// connection-level failure carrying the transport's message.
pub fn classify_transport_failure(timed_out: bool, message: String) -> (e: UpstreamError)
    ensures
        timed_out ==> (e is Timeout),
        !timed_out ==> e == UpstreamError::Connect(message),
{
    if timed_out {
        UpstreamError::Timeout
    } else {
        UpstreamError::Connect(message)
    }
}

/// `reqwest::Error`, the failure of sending a request; opaque here.
#[verifier::external_type_specification]
#[verifier::external_body]
pub struct ExReqwestError(reqwest::Error);

/// What `reqwest::Error::is_timeout` answers for `e`: whether the error, or
/// an error in its chain of sources, is a timeout.
pub uninterp spec fn reqwest_timed_out(e: reqwest::Error) -> bool;

/// What `reqwest::Error`'s `Display` impl renders for `e`.
pub uninterp spec fn reqwest_message(e: reqwest::Error) -> Seq<char>;

/// Calls `reqwest::Error::is_timeout`. The answer is decided by the error
/// value alone (its kind and its chain of sources) and is named by
/// `reqwest_timed_out`.
#[verifier::external_body]
fn reqwest_error_is_timeout(e: &reqwest::Error) -> (b: bool)
    ensures
        b == reqwest_timed_out(*e),
{
    e.is_timeout()
}

/// Renders a `reqwest::Error` with its `Display` impl (`to_string`). The
/// text is decided by the error value alone and is named by `reqwest_message`.
#[verifier::external_body]
fn reqwest_error_text(e: &reqwest::Error) -> (s: String)
    ensures
        s@ == reqwest_message(*e),
{
    e.to_string()
}

/// Converts a transport error at send time into the classification: a
/// timeout becomes `Timeout`; connect, request and body failures are all
/// connection-level, carrying the error's text, as far as retry accounting is
/// concerned.
pub fn classify_send_error(e: reqwest::Error) -> (r: UpstreamError)
    ensures
        reqwest_timed_out(e) ==> r is Timeout,
        !reqwest_timed_out(e) ==> (r matches UpstreamError::Connect(m) && m@ == reqwest_message(e)),
{
    let timed_out = reqwest_error_is_timeout(&e);
    if timed_out {
        classify_transport_failure(true, String::new())
    } else {
        classify_transport_failure(false, reqwest_error_text(&e))
    }
}

} // verus!
