//! Non-LLM inference requests (routed to Triton).
//!
//! - `POST /v1/infer/{model}` — model name in the path, KServe-style body.
//! - `POST /v1/embeddings`    — OpenAI-style body with `model` inside it.
//!
//! Both funnel into one pipeline: classify → size-check → parse → admit →
//! forward → record.

use crate::error::{ErrorCode, GatewayError};
use crate::json::{json_document, json_parse_error, parse_json, str_field, str_member};
use crate::routing::classifier::{classify, classify_outcome, routes_to, ApiSurface, Route};
use crate::routing::policy::error_is;
use crate::routing::registry::{Registry, RegistryView};
use crate::text::{append_decimal, decimal};
use serde_json::Value;
use vstd::prelude::*;

verus! {

/// The message of a payload-too-large error on the inference surfaces.
pub open spec fn too_large_message(len: usize, limit: usize) -> Seq<char> {
    "request body "@ + decimal(len as nat) + " bytes exceeds limit "@ + decimal(limit as nat)
}

/// The outcome of the checks before admission, for an inference request for
/// `model` on `surface` with a body of `body_len` bytes whose JSON parse gave
/// `parse_error`: the model's index, or the error code and message.
pub open spec fn infer_outcome(
    r: RegistryView,
    model: Seq<char>,
    surface: ApiSurface,
    body_len: usize,
    parse_error: Option<Seq<char>>,
) -> Result<int, (ErrorCode, Seq<char>)> {
    match classify_outcome(r, model, surface) {
        Err(e) => Err(e),
        Ok(i) => {
            let limit = r.models[i].cfg.max_request_bytes;
            if body_len > limit {
                Err((ErrorCode::PayloadTooLarge, too_large_message(body_len, limit)))
            } else {
                match parse_error {
                    Some(m) => Err((ErrorCode::BadRequest, "invalid JSON body: "@ + m)),
                    None => Ok(i),
                }
            }
        },
    }
}

/// The reply `res` is the outcome `o` for request `rid`.
pub open spec fn reply_is<T>(
    res: Result<T, GatewayError>,
    o: Result<int, (ErrorCode, Seq<char>)>,
    rid: Seq<char>,
) -> bool {
    match o {
        Ok(_) => res is Ok,
        Err((code, message)) => res matches Err(e) && error_is(e, code, message, rid),
    }
}

/// The checks an inference request passes before admission, given whether
/// its body parsed: the model must exist and serve this surface, the body
/// must fit the model's size limit, and it must be JSON.
pub fn check_infer_request(
    registry: &Registry,
    model: &str,
    surface: ApiSurface,
    body_len: usize,
    parse_error: Option<&str>,
    request_id: &str,
) -> (r: Result<Route, GatewayError>)
    ensures
        reply_is(
            r,
            infer_outcome(
                registry@,
                model@,
                surface,
                body_len,
                match parse_error {
                    Some(m) => Some(m@),
                    None => None,
                },
            ),
            request_id@,
        ),
        r matches Ok(route) ==> routes_to(route, registry@, registry@.index_of(model@)),
{
    let route = match classify(registry, model, surface) {
        Ok(route) => route,
        Err(e) => return Err(e.with_request_id(request_id)),
    };
    let limit = registry.models()[route.model].cfg.max_request_bytes;
    if body_len > limit {
        let mut message = String::from_str("request body ");
        append_decimal(&mut message, body_len as u64);
        message.append(" bytes exceeds limit ");
        append_decimal(&mut message, limit as u64);
        return Err(
            GatewayError::new(ErrorCode::PayloadTooLarge, message.as_str()).with_request_id(
                request_id,
            ),
        );
    }
    match parse_error {
        Some(m) => {
            let mut message = String::from_str("invalid JSON body: ");
            message.append(m);
            Err(GatewayError::bad_request(message.as_str()).with_request_id(request_id))
        },
        None => Ok(route),
    }
}

/// A request that passed the checks: its route and its parsed body.
pub struct InferPlan {
    pub route: Route,
    pub payload: Value,
}

/// Runs the checks of an inference request for `model` on `surface` with
/// body `body`, parsing the body only once it is known to fit.
pub fn infer_request_checks(
    registry: &Registry,
    model: &str,
    surface: ApiSurface,
    body: &[u8],
    request_id: &str,
) -> (r: Result<InferPlan, GatewayError>)
    ensures
        reply_is(
            r,
            infer_outcome(registry@, model@, surface, body@.len() as usize, json_parse_error(body@)),
            request_id@,
        ),
        r matches Ok(plan) ==> routes_to(plan.route, registry@, registry@.index_of(model@))
            && plan.payload == json_document(body@),
{
    let route = match check_infer_request(registry, model, surface, body.len(), None, request_id) {
        Ok(route) => route,
        Err(e) => return Err(e),
    };
    match parse_json(body) {
        Ok(payload) => Ok(InferPlan { route, payload }),
        Err(m) => {
            let mut message = String::from_str("invalid JSON body: ");
            message.append(m.as_str());
            Err(GatewayError::bad_request(message.as_str()).with_request_id(request_id))
        },
    }
}

/// The top-level `model` string of a JSON body, if the body is JSON and has
/// one.
pub open spec fn body_model(body: Seq<u8>) -> Option<Seq<char>> {
    match json_parse_error(body) {
        Some(_) => None,
        None => str_member(json_document(body), "model"@),
    }
}

/// The model named by an embeddings body: its top-level `model` string.
/// Without one (or without a JSON body) the request is rejected as
/// `bad_request` with "missing 'model' field".
pub fn embeddings_model(body: &[u8], request_id: &str) -> (r: Result<String, GatewayError>)
    ensures
        body_model(body@) matches Some(m) ==> (r matches Ok(s) && s@ == m),
        body_model(body@) is None ==> (r matches Err(e) && error_is(
            e,
            ErrorCode::BadRequest,
            "missing 'model' field"@,
            request_id@,
        )),
{
    let model = match parse_json(body) {
        Ok(v) => str_field(&v, "model"),
        Err(_) => None,
    };
    match model {
        Some(m) => Ok(m),
        None => Err(GatewayError::bad_request("missing 'model' field").with_request_id(request_id)),
    }
}

} // verus!
