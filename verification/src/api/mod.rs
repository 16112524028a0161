//! The decisions behind the HTTP API: request ids, deadlines, and the
//! per-endpoint request handling. The server turns HTTP requests into the
//! plain values these functions take, and their results into responses.

pub mod admin;
pub mod chat;
pub mod health;
pub mod infer;
pub mod models;

use crate::config::{millis_to_nanos, nanos_from_millis, Backend, Workload};
use crate::observability::request_context::{
    is_uuid_char, is_uuid_v4_text, new_request_id, remaining_at, RequestContext,
};
use crate::error::{ErrorCode, GatewayError};
use crate::routing::policy::error_is;
use crate::text::{parse_u64, parse_u64_spec};
use vstd::prelude::*;
use vstd::string::StringSliceAdditionalSpecFns;
use vstd::utf8::{encode_utf8, is_ascii_chars, is_ascii_chars_encode_utf8};

verus! {

/// The byte may appear in a client-supplied request id: an ASCII letter or
/// digit, `-`, `_` or `.`.
pub open spec fn is_safe_id_byte(b: u8) -> bool {
    (48 <= b <= 57) || (65 <= b <= 90) || (97 <= b <= 122) || b == 45 || b == 95 || b == 46
}

/// The bytes form an acceptable request id: 1 to 128 safe bytes.
pub open spec fn is_safe_request_id(b: Seq<u8>) -> bool {
    &&& 0 < b.len() <= 128
    &&& forall|i: int| 0 <= i < b.len() ==> is_safe_id_byte(#[trigger] b[i])
}

fn check_safe_request_id(s: &str) -> (b: bool)
    ensures
        b == is_safe_request_id(s.spec_bytes()),
{
    let bytes = s.as_bytes();
    if bytes.len() == 0 || bytes.len() > 128 {
        return false;
    }
    let mut i: usize = 0;
    while i < bytes.len()
        invariant
            bytes@ == s.spec_bytes(),
            i <= bytes@.len(),
            forall|k: int| 0 <= k < i ==> is_safe_id_byte(#[trigger] bytes@[k]),
        decreases bytes@.len() - i,
    {
        let c = bytes[i];
        let ok = (48u8 <= c && c <= 57u8) || (65u8 <= c && c <= 90u8) || (97u8 <= c && c <= 122u8)
            || c == 45u8 || c == 95u8 || c == 46u8;
        if !ok {
            return false;
        }
        i = i + 1;
    }
    true
}

proof fn lemma_uuid_is_safe(s: Seq<char>)
    requires
        s.len() == 36,
        forall|i: int| 0 <= i < s.len() ==> is_uuid_char(#[trigger] s[i]),
    ensures
        is_safe_request_id(encode_utf8(s)),
{
    assert(is_ascii_chars(s)) by {
        assert forall|i: int| 0 <= i < s.len() implies '\0' <= #[trigger] s[i] <= '\u{7f}' by {
            assert(is_uuid_char(s[i]));
        }
    }
    is_ascii_chars_encode_utf8(s);
    let b = encode_utf8(s);
    assert forall|i: int| 0 <= i < b.len() implies is_safe_id_byte(#[trigger] b[i]) by {
        assert(s[i] as u8 == b[i]);
        assert(is_uuid_char(s[i]));
    }
}

/// Takes the client's request id (the `x-request-id` header value, if it is
/// text) when it is acceptable, or mints a fresh one. Either way the id is
/// acceptable.
pub fn request_id_from(header: Option<&str>) -> (r: String)
    ensures
        header matches Some(h) ==> (is_safe_request_id(h.spec_bytes()) ==> r@ == h@),
        !(header matches Some(h) && is_safe_request_id(h.spec_bytes())) ==> is_uuid_v4_text(r@),
        is_safe_request_id(encode_utf8(r@)),
{
    match header {
        Some(h) => {
            if check_safe_request_id(h) {
                return h.to_owned();
            }
        },
        None => {},
    }
    let id = new_request_id();
    proof {
        lemma_uuid_is_safe(id@);
    }
    id
}

/// The request deadline: the client may shorten the server default by giving
/// a number of milliseconds, but never extend it.
pub open spec fn resolved_deadline(header: Option<&str>, default_ns: u128) -> u128 {
    match header {
        Some(h) => match parse_u64_spec(h.spec_bytes()) {
            Some(ms) => if millis_to_nanos(ms) < default_ns {
                millis_to_nanos(ms)
            } else {
                default_ns
            },
            None => default_ns,
        },
        None => default_ns,
    }
}

/// Resolves the request deadline from the `x-deadline-ms` header value (if it
/// is text), in nanoseconds: the smaller of the client's value and the
/// server default; the default when the header is absent or not a number.
pub fn resolve_deadline(header: Option<&str>, default_ns: u128) -> (r: u128)
    ensures
        r == resolved_deadline(header, default_ns),
        r <= default_ns,
{
    match header {
        Some(h) => match parse_u64(h) {
            Some(ms) => {
                let ns = nanos_from_millis(ms);
                if ns < default_ns {
                    ns
                } else {
                    default_ns
                }
            },
            None => default_ns,
        },
        None => default_ns,
    }
}

/// Builds the per-request context from the deadline header and the resolved
/// route.
pub fn build_context(
    deadline_header: Option<&str>,
    request_id: String,
    model: String,
    workload: Workload,
    backend: Backend,
    default_deadline_ns: u128,
) -> (ctx: RequestContext)
    ensures
        ctx.request_id == request_id,
        ctx.model == model,
        ctx.workload == workload,
        ctx.backend == backend,
        ctx.deadline_ns == resolved_deadline(deadline_header, default_deadline_ns),
{
    let deadline = resolve_deadline(deadline_header, default_deadline_ns);
    RequestContext::new(request_id, model, workload, backend, deadline)
}

/// The per-attempt upstream timeout given the time left before the deadline:
/// the smaller of the two, or zero once the deadline has passed.
pub open spec fn timeout_for(remaining: Option<u128>, model_timeout_ns: u128) -> u128 {
    match remaining {
        Some(rem) => if rem < model_timeout_ns {
            rem
        } else {
            model_timeout_ns
        },
        None => 0,
    }
}

/// The per-attempt upstream timeout, in nanoseconds, when `remaining` is
/// left before the deadline (`None` once it has passed).
pub fn timeout_within(remaining: Option<u128>, model_timeout_ns: u128) -> (t: u128)
    ensures
        t == timeout_for(remaining, model_timeout_ns),
{
    match remaining {
        Some(rem) => if rem < model_timeout_ns {
            rem
        } else {
            model_timeout_ns
        },
        None => 0,
    }
}

/// Effective per-attempt upstream timeout, in nanoseconds: the smaller of the
/// model's configured timeout and the time left before the request deadline
/// (read from the clock); zero once the deadline has passed.
pub fn effective_timeout(ctx: &RequestContext, model_timeout_ns: u128) -> (t: u128)
    ensures
        exists|e: u128| t == timeout_for(#[trigger] remaining_at(ctx.deadline_ns, e), model_timeout_ns),
        t <= model_timeout_ns,
        t <= ctx.deadline_ns,
{
    timeout_within(ctx.remaining(), model_timeout_ns)
}

/// Rejects a request whose deadline passed before it could be admitted,
/// `elapsed_ns` after the request was received.
pub fn check_deadline_after(ctx: &RequestContext, elapsed_ns: u128, request_id: &str) -> (r: Result<
    (),
    GatewayError,
>)
    ensures
        remaining_at(ctx.deadline_ns, elapsed_ns) is None ==> (r matches Err(err) && error_is(
            err,
            ErrorCode::DeadlineExceeded,
            "deadline already elapsed"@,
            request_id@,
        )),
        remaining_at(ctx.deadline_ns, elapsed_ns) is Some ==> r is Ok,
{
    if ctx.is_expired_after(elapsed_ns) {
        return Err(
            GatewayError::new(ErrorCode::DeadlineExceeded, "deadline already elapsed").with_request_id(
                request_id,
            ),
        );
    }
    Ok(())
}

/// Rejects a request whose deadline passed before it could be admitted (the
/// time since the request was received is read from the clock).
pub fn check_deadline(ctx: &RequestContext, request_id: &str) -> (r: Result<(), GatewayError>)
    ensures
        exists|e: u128|
            #![trigger remaining_at(ctx.deadline_ns, e)]
            (remaining_at(ctx.deadline_ns, e) is None ==> (r matches Err(err) && error_is(
                err,
                ErrorCode::DeadlineExceeded,
                "deadline already elapsed"@,
                request_id@,
            ))) && (remaining_at(ctx.deadline_ns, e) is Some ==> r is Ok),
{
    let e = ctx.elapsed();
    check_deadline_after(ctx, e, request_id)
}

} // verus!
