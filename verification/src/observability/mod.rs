//! Per-request context: request ids and deadlines.

pub mod request_context;
