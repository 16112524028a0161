//! Per-request context threaded through the gateway.
//!
//! It carries the request id (generated if the client did not supply one), the
//! deadline, and the resolved routing labels. The request id is echoed on the
//! response and in errors.

use crate::clock::{instant_now, nanos_since};
use crate::config::{Backend, Workload};
use std::time::Instant;
use vstd::prelude::*;

verus! {

pub const REQUEST_ID_HEADER: &'static str = "x-request-id";

pub const DEADLINE_HEADER: &'static str = "x-deadline-ms";

/// The request has `remaining` nanoseconds left, `elapsed_ns` after it was
/// received with a budget of `deadline_ns`; none once the deadline has passed.
pub open spec fn remaining_at(deadline_ns: u128, elapsed_ns: u128) -> Option<u128> {
    if elapsed_ns <= deadline_ns {
        Some((deadline_ns - elapsed_ns) as u128)
    } else {
        None
    }
}

pub struct RequestContext {
    pub request_id: String,
    pub model: String,
    pub workload: Workload,
    pub backend: Backend,
    /// How long the request may take in all, in nanoseconds from `received_at`.
    pub deadline_ns: u128,
    /// When the request entered the gateway.
    pub received_at: Instant,
}

impl RequestContext {
    /// A context for a request received at instant `received_at`, with a
    /// budget of `deadline_ns`.
    pub fn new_at(
        request_id: String,
        model: String,
        workload: Workload,
        backend: Backend,
        deadline_ns: u128,
        received_at: Instant,
    ) -> (ctx: Self)
        ensures
            ctx.request_id == request_id,
            ctx.model == model,
            ctx.workload == workload,
            ctx.backend == backend,
            ctx.deadline_ns == deadline_ns,
            ctx.received_at == received_at,
    {
        RequestContext { request_id, model, workload, backend, deadline_ns, received_at }
    }

    /// A context for a request received now (the instant is read from the
    /// clock), with a budget of `deadline_ns`.
    pub fn new(
        request_id: String,
        model: String,
        workload: Workload,
        backend: Backend,
        deadline_ns: u128,
    ) -> (ctx: Self)
        ensures
            ctx.request_id == request_id,
            ctx.model == model,
            ctx.workload == workload,
            ctx.backend == backend,
            ctx.deadline_ns == deadline_ns,
    {
        let now = instant_now();
        Self::new_at(request_id, model, workload, backend, deadline_ns, now)
    }

    /// Remaining time before the deadline, `elapsed_ns` after the request was
    /// received, or `None` if it has passed.
    pub fn remaining_after(&self, elapsed_ns: u128) -> (r: Option<u128>)
        ensures
            r == remaining_at(self.deadline_ns, elapsed_ns),
    {
        if elapsed_ns <= self.deadline_ns {
            Some(self.deadline_ns - elapsed_ns)
        } else {
            None
        }
    }

    /// Remaining time before the deadline, or `None` if already past it. The
    /// time since the request was received is read from the clock.
    pub fn remaining(&self) -> (r: Option<u128>)
        ensures
            exists|e: u128| r == #[trigger] remaining_at(self.deadline_ns, e),
            r matches Some(x) ==> x <= self.deadline_ns,
    {
        let e = nanos_since(&self.received_at);
        self.remaining_after(e)
    }

    /// The deadline has passed, `elapsed_ns` after the request was received.
    pub fn is_expired_after(&self, elapsed_ns: u128) -> (b: bool)
        ensures
            b == (remaining_at(self.deadline_ns, elapsed_ns) is None),
    {
        self.remaining_after(elapsed_ns).is_none()
    }

    /// The deadline has passed; the time since the request was received is
    /// read from the clock.
    pub fn is_expired(&self) -> (b: bool)
        ensures
            exists|e: u128| b == (#[trigger] remaining_at(self.deadline_ns, e) is None),
    {
        let e = nanos_since(&self.received_at);
        self.is_expired_after(e)
    }

    /// Time since the request was received, in nanoseconds (a clock reading).
    pub fn elapsed(&self) -> u128 {
        nanos_since(&self.received_at)
    }
}

/// The character may appear in a UUID rendered in hyphenated lowercase form.
pub open spec fn is_uuid_char(c: char) -> bool {
    ('0' <= c <= '9') || ('a' <= c <= 'f') || c == '-'
}

/// The text is a version-4 UUID in hyphenated lowercase form: 36
/// characters, hyphens exactly at positions 8, 13, 18 and 23, lowercase hex
/// digits elsewhere, the version digit `4` at position 14, and the RFC 4122
/// variant (`8`, `9`, `a` or `b`) at position 19.
pub open spec fn is_uuid_v4_text(s: Seq<char>) -> bool {
    &&& s.len() == 36
    &&& forall|i: int| 0 <= i < s.len() ==> is_uuid_char(#[trigger] s[i])
    &&& forall|i: int|
        0 <= i < s.len() ==> (#[trigger] s[i] == '-' <==> (i == 8 || i == 13 || i == 18 || i
            == 23))
    &&& s[14] == '4'
    &&& (s[19] == '8' || s[19] == '9' || s[19] == 'a' || s[19] == 'b')
}

/// Calls `uuid::Uuid::new_v4` and renders the UUID with `to_string`. The UUID
/// is random; whatever the random bits, the uuid source fixes the version
/// nibble to 4 and the variant bits to `10`, and renders the value in the
/// hyphenated lowercase form, which is what the contract states.
#[verifier::external_body]
fn uuid_v4_string() -> (s: String)
    ensures
        is_uuid_v4_text(s@),
{
    uuid::Uuid::new_v4().to_string()
}

/// A fresh random request id: a version-4 UUID in hyphenated lowercase form.
pub fn new_request_id() -> (s: String)
    ensures
        is_uuid_v4_text(s@),
{
    uuid_v4_string()
}

} // verus!
