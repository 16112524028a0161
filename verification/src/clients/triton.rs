//! Triton client addressing (KServe v2 REST inference protocol).
//!
//! The gateway forwards the caller's inference body to
//! `POST {endpoint}/v2/models/{model}/infer` and returns Triton's response
//! verbatim; the HTTP exchange is done by the server.

use crate::text::{trim_end_slashes, trim_trailing_slashes};
use vstd::prelude::*;

verus! {

/// The inference URL of `model` behind `endpoint`.
pub open spec fn infer_url_spec(endpoint: Seq<char>, model: Seq<char>) -> Seq<char> {
    trim_trailing_slashes(endpoint) + "/v2/models/"@ + model + "/infer"@
}

/// `{endpoint}/v2/models/{model}/infer`, with trailing slashes of the
/// endpoint removed.
pub fn infer_url(endpoint: &str, model: &str) -> (url: String)
    ensures
        url@ == infer_url_spec(endpoint@, model@),
{
    let mut url = String::from_str(trim_end_slashes(endpoint));
    url.append("/v2/models/");
    url.append(model);
    url.append("/infer");
    url
}

} // verus!
