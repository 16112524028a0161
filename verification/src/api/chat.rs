//! LLM chat completions (routed to Dynamo), OpenAI-compatible.
//!
//! `POST /v1/chat/completions`. If the body sets `"stream": true` and the model
//! supports streaming, the server proxies Dynamo's SSE body straight through,
//! measuring time-to-first-token; capacity is held for the whole generation
//! and released when the stream ends or the client disconnects. Streaming
//! requests are never retried.

use crate::error::{ErrorCode, GatewayError};
use crate::json::{bool_field, bool_member, json_document, json_parse_error, parse_json, str_field, str_member};
use crate::routing::classifier::{classify, classify_outcome, routes_to, ApiSurface, Route};
use crate::routing::policy::error_is;
use crate::routing::registry::{Registry, RegistryView};
use serde_json::Value;
use vstd::prelude::*;

verus! {

/// The outcome of the checks before admission for a chat request whose body
/// has `body_len` bytes, whose JSON parse gave `parse_error`, and whose
/// top-level `model` and `stream` members read as `model` and `stream`: the
/// model's index and whether to stream, or the error code and message.
pub open spec fn chat_outcome(
    r: RegistryView,
    body_len: usize,
    parse_error: Option<Seq<char>>,
    model: Option<Seq<char>>,
    stream: Option<bool>,
) -> Result<(int, bool), (ErrorCode, Seq<char>)> {
    match parse_error {
        Some(m) => Err((ErrorCode::BadRequest, "invalid JSON body: "@ + m)),
        None => match model {
            None => Err((ErrorCode::BadRequest, "missing 'model' field"@)),
            Some(name) => match classify_outcome(r, name, ApiSurface::Chat) {
                Err(e) => Err(e),
                Ok(i) => {
                    let want = match stream {
                        Some(b) => b,
                        None => false,
                    };
                    if body_len > r.models[i].cfg.max_request_bytes {
                        Err((ErrorCode::PayloadTooLarge, "request body too large"@))
                    } else if want && !r.models[i].cfg.streaming {
                        Err((ErrorCode::BadRequest, "model does not support streaming"@))
                    } else {
                        Ok((i, want))
                    }
                },
            },
        },
    }
}

/// The reply `res` (a route and whether to stream) is the outcome `o` for
/// request `rid`.
pub open spec fn chat_reply_is(
    res: Result<(Route, bool), GatewayError>,
    o: Result<(int, bool), (ErrorCode, Seq<char>)>,
    r: RegistryView,
    rid: Seq<char>,
) -> bool {
    match o {
        Ok((i, want)) => res matches Ok((route, stream)) && routes_to(route, r, i) && stream == want,
        Err((code, message)) => res matches Err(e) && error_is(e, code, message, rid),
    }
}

/// The view of an optional string.
pub open spec fn opt_view(s: Option<&str>) -> Option<Seq<char>> {
    match s {
        Some(x) => Some(x@),
        None => None,
    }
}

/// The checks a chat request passes before admission, given what its body
/// parsed to: the body must be JSON naming a model, the model must exist and
/// be a chat model, the body must fit the model's size limit, and streaming
/// may only be asked of a streaming model.
pub fn check_chat_request(
    registry: &Registry,
    body_len: usize,
    parse_error: Option<&str>,
    model: Option<&str>,
    stream: Option<bool>,
    request_id: &str,
) -> (r: Result<(Route, bool), GatewayError>)
    ensures
        chat_reply_is(
            r,
            chat_outcome(registry@, body_len, opt_view(parse_error), opt_view(model), stream),
            registry@,
            request_id@,
        ),
{
    if let Some(m) = parse_error {
        let mut message = String::from_str("invalid JSON body: ");
        message.append(m);
        return Err(GatewayError::bad_request(message.as_str()).with_request_id(request_id));
    }
    let name = match model {
        Some(name) => name,
        None => {
            return Err(GatewayError::bad_request("missing 'model' field").with_request_id(request_id));
        },
    };
    let route = match classify(registry, name, ApiSurface::Chat) {
        Ok(route) => route,
        Err(e) => return Err(e.with_request_id(request_id)),
    };
    let cfg = &registry.models()[route.model].cfg;
    if body_len > cfg.max_request_bytes {
        return Err(
            GatewayError::new(ErrorCode::PayloadTooLarge, "request body too large").with_request_id(
                request_id,
            ),
        );
    }
    let want_stream = match stream {
        Some(b) => b,
        None => false,
    };
    if want_stream && !cfg.streaming {
        return Err(GatewayError::bad_request("model does not support streaming").with_request_id(request_id));
    }
    Ok((route, want_stream))
}

/// A chat request that passed the checks.
pub struct ChatPlan {
    pub route: Route,
    pub model: String,
    pub stream: bool,
    pub payload: Value,
}

/// The top-level `model` string of a chat body, if it is JSON and has one.
pub open spec fn chat_body_model(body: Seq<u8>) -> Option<Seq<char>> {
    str_member(json_document(body), "model"@)
}

/// The top-level `stream` boolean of a chat body, if it is JSON and has one.
pub open spec fn chat_body_stream(body: Seq<u8>) -> Option<bool> {
    bool_member(json_document(body), "stream"@)
}

/// The outcome of the checks for the chat request with body `body`.
pub open spec fn chat_body_outcome(r: RegistryView, body: Seq<u8>) -> Result<
    (int, bool),
    (ErrorCode, Seq<char>),
> {
    chat_outcome(
        r,
        body.len() as usize,
        json_parse_error(body),
        chat_body_model(body),
        chat_body_stream(body),
    )
}

/// Runs the checks of a chat request with body `body`: the body is parsed,
/// and its `model` and `stream` members are read.
pub fn chat_request_checks(registry: &Registry, body: &[u8], request_id: &str) -> (r: Result<
    ChatPlan,
    GatewayError,
>)
    ensures
        match chat_body_outcome(registry@, body@) {
            Ok((i, want)) => r matches Ok(plan) && routes_to(plan.route, registry@, i)
                && plan.stream == want && chat_body_model(body@) == Some(plan.model@)
                && plan.payload == json_document(body@),
            Err((code, message)) => r matches Err(e) && error_is(e, code, message, request_id@),
        },
{
    let payload = match parse_json(body) {
        Ok(v) => v,
        Err(m) => {
            let mut message = String::from_str("invalid JSON body: ");
            message.append(m.as_str());
            return Err(GatewayError::bad_request(message.as_str()).with_request_id(request_id));
        },
    };
    let model = str_field(&payload, "model");
    let stream = bool_field(&payload, "stream");
    let name = match model {
        Some(m) => m,
        None => {
            return Err(GatewayError::bad_request("missing 'model' field").with_request_id(request_id));
        },
    };
    let checked = check_chat_request(
        registry,
        body.len(),
        None,
        Some(name.as_str()),
        stream,
        request_id,
    );
    match checked {
        Ok((route, want)) => Ok(ChatPlan { route, model: name, stream: want, payload }),
        Err(e) => Err(e),
    }
}

/// The server-sent-events end marker `data: [DONE]`, as bytes.
pub open spec fn done_marker() -> Seq<u8> {
    seq![100u8, 97u8, 116u8, 97u8, 58u8, 32u8, 91u8, 68u8, 79u8, 78u8, 69u8, 93u8]
}

/// The chunk holds the end marker somewhere.
pub open spec fn holds_done_marker(chunk: Seq<u8>) -> bool {
    exists|i: int|
        0 <= i && i + done_marker().len() <= chunk.len() && #[trigger] chunk.subrange(
            i,
            i + done_marker().len(),
        ) == done_marker()
}

/// Whether a streamed chunk holds the end-of-stream marker `data: [DONE]`.
pub fn contains_done_marker(chunk: &[u8]) -> (b: bool)
    ensures
        b == holds_done_marker(chunk@),
{
    let marker: [u8; 12] = [100u8, 97u8, 116u8, 97u8, 58u8, 32u8, 91u8, 68u8, 79u8, 78u8, 69u8, 93u8];
    assert(marker@ =~= done_marker());
    if chunk.len() < 12 {
        return false;
    }
    let n = chunk.len();
    let mut i: usize = 0;
    while i <= n - 12
        invariant
            marker@ == done_marker(),
            n == chunk@.len(),
            n >= 12,
            i <= chunk@.len(),
            forall|k: int|
                0 <= k < i && k + 12 <= chunk@.len() ==> #[trigger] chunk@.subrange(k, k + 12)
                    != done_marker(),
        decreases chunk@.len() - i,
    {
        let mut j: usize = 0;
        let mut same = true;
        while j < 12
            invariant
                marker@ == done_marker(),
                n == chunk@.len(),
                i + 12 <= n,
                j <= 12,
                same == (forall|k: int| 0 <= k < j ==> chunk@[i + k] == marker@[k]),
            decreases 12 - j,
        {
            if chunk[i + j] != marker[j] {
                same = false;
            }
            j = j + 1;
        }
        if same {
            assert(chunk@.subrange(i as int, i + 12) =~= done_marker());
            return true;
        }
        assert(chunk@.subrange(i as int, i + 12) != done_marker()) by {
            let k = choose|k: int| 0 <= k < 12 && chunk@[i + k] != marker@[k];
            assert(chunk@.subrange(i as int, i + 12)[k] == chunk@[i + k]);
        }
        i = i + 1;
    }
    false
}

/// Progress of a streamed reply: whether a chunk has arrived yet, and whether
/// the stream finished (end marker, upstream error, or end of body).
#[derive(Debug, Clone, Copy, PartialEq, Eq, Structural)]
pub struct StreamProgress {
    pub first_seen: bool,
    pub completed: bool,
}

impl StreamProgress {
    /// A stream that has not produced anything yet.
    pub fn new() -> (p: Self)
        ensures
            !p.first_seen,
            !p.completed,
    {
        StreamProgress { first_seen: false, completed: false }
    }

    /// A chunk arrived. Returns whether it is the first one (time to first
    /// token is measured then); a chunk holding `data: [DONE]` completes the
    /// stream.
    pub fn on_chunk(&mut self, chunk: &[u8]) -> (first: bool)
        ensures
            first == !old(self).first_seen,
            final(self).first_seen,
            final(self).completed == (old(self).completed || holds_done_marker(chunk@)),
    {
        let first = !self.first_seen;
        self.first_seen = true;
        if contains_done_marker(chunk) {
            self.completed = true;
        }
        first
    }

    /// The upstream body failed; the stream is over.
    pub fn on_error(&mut self)
        ensures
            final(self).first_seen == old(self).first_seen,
            final(self).completed,
    {
        self.completed = true;
    }

    /// The upstream body ended; the stream is over.
    pub fn on_end(&mut self)
        ensures
            final(self).first_seen == old(self).first_seen,
            final(self).completed,
    {
        self.completed = true;
    }

    /// Dropping the stream now counts as a client cancellation.
    pub fn cancelled(&self) -> (b: bool)
        ensures
            b == !self.completed,
    {
        !self.completed
    }
}

} // verus!
