//! Admission control: concurrency accounting with a bounded waiting room, and
//! circuit breaking.

pub mod backpressure;
pub mod circuit_breaker;
