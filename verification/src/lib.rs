//! FusionServe gateway library: the routing, admission and error-model logic of
//! a unified inference gateway in front of Triton (non-LLM) and Dynamo (LLM)
//! backends, with its behaviour stated as contracts.

pub mod admission;
pub mod api;
pub mod clients;
pub mod clock;
pub mod config;
pub mod error;
pub mod json;
pub mod observability;
pub mod routing;
pub mod text;
