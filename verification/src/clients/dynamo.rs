//! Dynamo client addressing (OpenAI-compatible frontend).
//!
//! LLM chat traffic is sent to Dynamo's frontend at
//! `POST {endpoint}/v1/chat/completions`. The endpoint is parsed and extended
//! with the `url` crate (re-exported by `reqwest`); the HTTP exchange itself,
//! including proxying the Server-Sent-Events body, is done by the server.

use super::UpstreamError;
use vstd::prelude::*;

verus! {

/// `reqwest::Url` (the `url` crate's `Url`); opaque here.
#[verifier::external_type_specification]
#[verifier::external_body]
pub struct ExUrl(reqwest::Url);

/// What `reqwest::Url::parse` makes of `input`: the absolute URL, or the
/// text of the parse error.
pub uninterp spec fn url_parse(input: Seq<char>) -> Result<reqwest::Url, Seq<char>>;

/// What editing the path of `u` through `path_segments_mut`, `pop_if_empty`
/// and `extend(segments)` gives: the edited URL, or `None` where `u` is
/// cannot-be-a-base and its path cannot be edited.
pub uninterp spec fn url_extended(u: reqwest::Url, segments: Seq<&str>) -> Option<reqwest::Url>;

/// Calls `reqwest::Url::parse`. The URL, or the error text (the `Display` of
/// the crate's `ParseError`), is a function of the input alone, named by
/// `url_parse`.
#[verifier::external_body]
fn parse_url(input: &str) -> (r: Result<reqwest::Url, String>)
    ensures
        match r {
            Ok(u) => url_parse(input@) == Ok::<reqwest::Url, Seq<char>>(u),
            Err(m) => url_parse(input@) == Err::<reqwest::Url, Seq<char>>(m@),
        },
{
    match reqwest::Url::parse(input) {
        Ok(url) => Ok(url),
        Err(e) => Err(e.to_string()),
    }
}

/// Calls `Url::path_segments_mut` and, when it gives access to the path,
/// `pop_if_empty` followed by `extend(segments)` on the `PathSegmentsMut`
/// guard it hands out (the guard type is not re-exported, so its two methods
/// are called here rather than through items of their own). Returns `false`,
/// with the URL untouched, where the URL is cannot-be-a-base
/// (`path_segments_mut` then fails before changing anything). The edited URL
/// is a function of the URL and the segments, named by `url_extended`.
#[verifier::external_body]
fn extend_path_segments(url: &mut reqwest::Url, segments: &[&str]) -> (appended: bool)
    ensures
        match url_extended(*old(url), segments@) {
            Some(w) => appended && *final(url) == w,
            None => !appended && *final(url) == *old(url),
        },
{
    match url.path_segments_mut() {
        Ok(mut path) => {
            path.pop_if_empty().extend(segments);
            true
        },
        Err(()) => false,
    }
}

/// The path segments of the chat-completions route.
pub open spec fn chat_segments() -> Seq<&'static str> {
    seq!["v1", "chat", "completions"]
}

/// The connection error reported for an endpoint that does not parse.
pub open spec fn invalid_endpoint_message(reason: Seq<char>) -> Seq<char> {
    "invalid Dynamo endpoint: "@ + reason
}

/// The connection error reported for an endpoint that cannot take a path.
pub open spec fn not_a_base_message() -> Seq<char> {
    "Dynamo endpoint cannot be a base URL"@
}

/// The chat-completions URL behind `endpoint`: the endpoint with a trailing
/// empty path segment dropped and `v1/chat/completions` appended. An endpoint
/// that does not parse, or that cannot be a base, is a connection error.
pub fn chat_url(endpoint: &str) -> (r: Result<reqwest::Url, UpstreamError>)
    ensures
        match url_parse(endpoint@) {
            Err(reason) => r matches Err(UpstreamError::Connect(m)) && m@ == invalid_endpoint_message(
                reason,
            ),
            Ok(u) => match url_extended(u, chat_segments()) {
                Some(w) => r == Ok::<reqwest::Url, UpstreamError>(w),
                None => r matches Err(UpstreamError::Connect(m)) && m@ == not_a_base_message(),
            },
        },
{
    let mut url = match parse_url(endpoint) {
        Ok(url) => url,
        Err(reason) => {
            let mut m = String::from_str("invalid Dynamo endpoint: ");
            m.append(reason.as_str());
            return Err(UpstreamError::Connect(m));
        },
    };
    let segments: [&str; 3] = ["v1", "chat", "completions"];
    assert(segments@ == chat_segments());
    if extend_path_segments(&mut url, &segments) {
        Ok(url)
    } else {
        Err(UpstreamError::Connect(String::from_str("Dynamo endpoint cannot be a base URL")))
    }
}

} // verus!
