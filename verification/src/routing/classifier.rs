//! Workload classification.
//!
//! The gateway routes by *workload*, and the workload is a property of the
//! model as declared in the registry — not something guessed from payload
//! bytes. The classifier (a) resolves a model to its declared
//! workload/backend and (b) enforces that the workload matches the API surface
//! the request arrived on (e.g. a chat model may not be called via
//! `/v1/infer`).

use crate::config::{Backend, Workload};
use crate::error::{unknown_model_message, ErrorCode, GatewayError};
use crate::routing::registry::{Registry, RegistryView};
use vstd::prelude::*;

verus! {

/// Which gateway API surface a request arrived on.
#[derive(Debug, Clone, Copy, PartialEq, Eq, Structural)]
pub enum ApiSurface {
    /// `POST /v1/infer/{model}`.
    Infer,
    /// `POST /v1/embeddings`.
    Embed,
    /// `POST /v1/chat/completions`.
    Chat,
}

impl ApiSurface {
    /// The surface serves models of workload `w`: image classification and
    /// embeddings on `/v1/infer`, embeddings on `/v1/embeddings`, chat on
    /// `/v1/chat/completions`.
    pub open spec fn accepts(self, w: Workload) -> bool {
        match self {
            ApiSurface::Infer => w == Workload::ImageClassification || w == Workload::Embedding,
            ApiSurface::Embed => w == Workload::Embedding,
            ApiSurface::Chat => w == Workload::ChatCompletion,
        }
    }
}

/// The resolved routing decision for a request: the index of the model in the
/// registry, with its workload and backend.
#[derive(Debug, Clone, Copy)]
pub struct Route {
    pub model: usize,
    pub workload: Workload,
    pub backend: Backend,
}

/// The message of a wrong-surface error for model `name` of workload `w`.
pub open spec fn wrong_surface_message(name: Seq<char>, w: Workload) -> Seq<char> {
    "model '"@ + name + "' is a "@ + w.label() + " workload and cannot be called on this endpoint"@
}

/// The outcome of classifying `name` for `surface`: the model's index, or
/// the error code and message.
pub open spec fn classify_outcome(r: RegistryView, name: Seq<char>, surface: ApiSurface) -> Result<
    int,
    (ErrorCode, Seq<char>),
> {
    if !r.has_model(name) {
        Err((ErrorCode::UnknownModel, unknown_model_message(name)))
    } else {
        let i = r.index_of(name);
        let w = r.models[i].cfg.workload;
        if !surface.accepts(w) {
            Err((ErrorCode::BadRequest, wrong_surface_message(name, w)))
        } else {
            Ok(i)
        }
    }
}

/// `route` is the route to model `i` of `r`.
pub open spec fn routes_to(route: Route, r: RegistryView, i: int) -> bool {
    &&& route.model == i
    &&& 0 <= i < r.models.len()
    &&& route.workload == r.models[i].cfg.workload
    &&& route.backend == r.models[i].cfg.backend
}

/// Resolves a model name against the registry and verifies it is valid for
/// the surface the request came in on.
pub fn classify(registry: &Registry, model_name: &str, surface: ApiSurface) -> (r: Result<
    Route,
    GatewayError,
>)
    ensures
        match r {
            Ok(route) => {
                &&& route.model < registry@.models.len()
                &&& registry@.models[route.model as int].name@ == model_name@
                &&& route.workload == registry@.models[route.model as int].cfg.workload
                &&& route.backend == registry@.models[route.model as int].cfg.backend
                &&& surface.accepts(route.workload)
            },
            Err(e) => {
                &&& e.request_id is None
                &&& !registry@.has_model(model_name@) ==> e.code == ErrorCode::UnknownModel
                    && e.message@ == unknown_model_message(model_name@)
                &&& registry@.has_model(model_name@) ==> e.code == ErrorCode::BadRequest
                    && exists|i: int|
                    0 <= i < registry@.models.len() && registry@.models[i].name@ == model_name@
                        && !surface.accepts(registry@.models[i].cfg.workload) && e.message@
                        == wrong_surface_message(model_name@, registry@.models[i].cfg.workload)
            },
        },
        match classify_outcome(registry@, model_name@, surface) {
            Ok(i) => r matches Ok(route) && routes_to(route, registry@, i),
            Err((code, message)) => r matches Err(e) && e.code == code && e.message@ == message,
        },
        r is Ok <==> exists|i: int|
            0 <= i < registry@.models.len() && registry@.models[i].name@ == model_name@
                && surface.accepts(registry@.models[i].cfg.workload),
{
    proof {
        use_type_invariant(registry);
    }
    let i = match registry.find_model(model_name) {
        Some(i) => i,
        None => {
            return Err(GatewayError::unknown_model(model_name));
        },
    };
    let m = &registry.models()[i];
    let workload = m.cfg.workload;
    let ok = match surface {
        ApiSurface::Infer => workload == Workload::ImageClassification || workload
            == Workload::Embedding,
        ApiSurface::Embed => workload == Workload::Embedding,
        ApiSurface::Chat => workload == Workload::ChatCompletion,
    };
    if !ok {
        let mut message = String::from_str("model '");
        message.append(model_name);
        message.append("' is a ");
        message.append(workload.as_str());
        message.append(" workload and cannot be called on this endpoint");
        return Err(GatewayError::new(ErrorCode::BadRequest, message.as_str()));
    }
    Ok(Route { model: i, workload, backend: m.cfg.backend })
}

} // verus!
