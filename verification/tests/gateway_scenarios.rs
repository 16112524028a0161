//! The gateway's request scenarios, run against the library's request
//! handling with the configuration the server tests use (endpoints where
//! nothing listens: every scenario is decided before any backend call).

use fusionserve_gateway::api::admin::disable_backend;
use fusionserve_gateway::api::chat::chat_request_checks;
use fusionserve_gateway::api::health::{healthz, readyz};
use fusionserve_gateway::api::infer::{embeddings_model, infer_request_checks};
use fusionserve_gateway::api::request_id_from;
use fusionserve_gateway::config::{
    default_max_request_bytes, AdmissionConfig, Backend, CircuitBreakerConfig, Config,
    HealthConfig, ModelConfig, Protocol, RetryConfig, ServerConfig, Workload,
};
use fusionserve_gateway::error::GatewayError;
use fusionserve_gateway::routing::classifier::ApiSurface;
use fusionserve_gateway::routing::policy::admit_checks;
use fusionserve_gateway::routing::registry::Registry;

const TRITON: &str = "http://127.0.0.1:59001";
const DYNAMO: &str = "http://127.0.0.1:59000";

fn test_config() -> Config {
    let resnet50 = ModelConfig {
        workload: Workload::ImageClassification,
        backend: Backend::Triton,
        protocol: Protocol::Http,
        endpoint: TRITON.to_string(),
        timeout_ms: 500,
        max_concurrency: 8,
        streaming: false,
        max_request_bytes: 1024,
        retry: RetryConfig::default(),
    };
    let qwen_small = ModelConfig {
        workload: Workload::ChatCompletion,
        backend: Backend::Dynamo,
        protocol: Protocol::Http,
        endpoint: DYNAMO.to_string(),
        timeout_ms: 2000,
        max_concurrency: 4,
        streaming: true,
        max_request_bytes: default_max_request_bytes(),
        retry: RetryConfig::default(),
    };
    Config {
        server: ServerConfig {
            bind_addr: "127.0.0.1:0".to_string(),
            global_max_inflight: 100,
            default_deadline_ms: 2000,
        },
        admission: AdmissionConfig {
            queue_capacity: 8,
            queue_timeout_ms: 200,
            circuit_breaker: CircuitBreakerConfig {
                failure_threshold: 3,
                open_cooldown_ms: 500,
                half_open_success_threshold: 1,
            },
        },
        health: HealthConfig { poll_interval_ms: 60000, unhealthy_after: 3 },
        models: vec![("resnet50".to_string(), resnet50), ("qwen_small".to_string(), qwen_small)],
    }
}

fn registry() -> Registry {
    let config = test_config();
    assert!(config.validate().is_ok());
    Registry::build(&config)
}

/// `POST /v1/infer/{model}` up to admission: the error the request ends with.
fn infer_error(reg: &Registry, model: &str, body: &[u8], request_id_header: Option<&str>) -> GatewayError {
    let rid = request_id_from(request_id_header);
    infer_request_checks(reg, model, ApiSurface::Infer, body, &rid).err().unwrap()
}

#[test]
fn healthz_is_ok() {
    assert_eq!(healthz(), 200);
}

#[test]
fn unknown_model_returns_404_with_stable_code() {
    let reg = registry();
    let e = infer_error(&reg, "does_not_exist", br#"{"inputs": []}"#, None);
    assert_eq!(e.code.status(), 404);
    assert_eq!(e.code.as_str(), "unknown_model");
    assert!(e.request_id.is_some());
}

#[test]
fn chat_model_rejected_on_infer_surface() {
    let reg = registry();
    let e = infer_error(&reg, "qwen_small", br#"{"inputs": []}"#, None);
    assert_eq!(e.code.status(), 400);
    assert_eq!(e.code.as_str(), "bad_request");
}

#[test]
fn unified_infer_requires_model_in_body() {
    let e = embeddings_model(br#"{"inputs": []}"#, &request_id_from(None)).err().unwrap();
    assert_eq!(e.code.status(), 400);
    assert_eq!(e.code.as_str(), "bad_request");
    assert!(e.request_id.is_some());
}

#[test]
fn unified_infer_classifies_model_from_body() {
    let reg = registry();
    let body = br#"{"model": "does_not_exist", "inputs": []}"#;
    let rid = request_id_from(None);
    let model = embeddings_model(body, &rid).unwrap();
    let e = infer_request_checks(&reg, &model, ApiSurface::Infer, body, &rid).err().unwrap();
    assert_eq!(e.code.status(), 404);
    assert_eq!(e.code.as_str(), "unknown_model");
}

#[test]
fn payload_too_large_is_413() {
    let reg = registry();
    // resnet50 has a 1024-byte limit.
    let big = format!("{{\"inputs\":\"{}\"}}", "x".repeat(4096));
    let e = infer_error(&reg, "resnet50", big.as_bytes(), None);
    assert_eq!(e.code.status(), 413);
    assert_eq!(e.code.as_str(), "payload_too_large");
}

#[test]
fn request_id_is_echoed_from_header() {
    let reg = registry();
    let e = infer_error(&reg, "does_not_exist", br#"{"inputs": []}"#, Some("abc-123"));
    assert_eq!(e.request_id.as_deref(), Some("abc-123"));
}

#[test]
fn admin_disable_makes_backend_unroutable() {
    let mut reg = registry();
    assert!(disable_backend(&mut reg, TRITON).is_ok());

    // Inference to a Triton model is now rejected as backend_unhealthy (503)
    // before any upstream call.
    let plan =
        infer_request_checks(&reg, "resnet50", ApiSurface::Infer, br#"{"inputs": [1, 2, 3]}"#, "r")
            .unwrap();
    let e = admit_checks(&mut reg, &plan.route, true, "r").err().unwrap();
    assert_eq!(e.code.status(), 503);
    assert_eq!(e.code.as_str(), "backend_unhealthy");
}

#[test]
fn readyz_reflects_all_backends_disabled() {
    let mut reg = registry();
    assert_eq!(readyz(&reg).status(), 200);
    for ep in [TRITON, DYNAMO] {
        assert!(disable_backend(&mut reg, ep).is_ok());
    }
    assert_eq!(readyz(&reg).status(), 503);
}

#[test]
fn rejects_invalid_chat_requests_before_backend() {
    let mut config = test_config();
    let mut qwen_unary = config.models[1].1.clone();
    qwen_unary.streaming = false;
    config.models.push(("qwen_unary".to_string(), qwen_unary));
    let reg = Registry::build(&config);

    let invalid_json = chat_request_checks(&reg, b"{", "r").err().unwrap();
    assert_eq!(invalid_json.code.status(), 400);
    let no_model = chat_request_checks(&reg, br#"{"messages": []}"#, "r").err().unwrap();
    assert_eq!(no_model.code.status(), 400);
    let no_stream =
        chat_request_checks(&reg, br#"{"model": "qwen_unary", "stream": true, "messages": []}"#, "r")
            .err()
            .unwrap();
    assert_eq!(no_stream.code.status(), 400);
}
