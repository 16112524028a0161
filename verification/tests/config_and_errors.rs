use fusionserve_gateway::config::{
    default_max_request_bytes, default_true, AdmissionConfig, Backend, CircuitBreakerConfig, Config,
    ConfigError, HealthConfig, ModelConfig, Protocol, RetryConfig, ServerConfig, Workload,
};
use fusionserve_gateway::error::{ErrorCode, GatewayError};

fn model(workload: Workload, max_concurrency: usize, streaming: bool) -> ModelConfig {
    ModelConfig {
        workload,
        backend: Backend::Triton,
        protocol: Protocol::Grpc,
        endpoint: "http://triton:8001".to_string(),
        timeout_ms: 250,
        max_concurrency,
        streaming,
        max_request_bytes: default_max_request_bytes(),
        retry: RetryConfig::default(),
    }
}

fn config(models: Vec<(String, ModelConfig)>) -> Config {
    Config {
        server: ServerConfig {
            bind_addr: "127.0.0.1:0".to_string(),
            global_max_inflight: 100,
            default_deadline_ms: 2000,
        },
        admission: AdmissionConfig {
            queue_capacity: 8,
            queue_timeout_ms: 200,
            circuit_breaker: CircuitBreakerConfig {
                failure_threshold: 3,
                open_cooldown_ms: 500,
                half_open_success_threshold: 1,
            },
        },
        health: HealthConfig { poll_interval_ms: 60000, unhealthy_after: 3 },
        models,
    }
}

fn invalid_message(r: Result<(), ConfigError>) -> String {
    match r {
        Err(ConfigError::Invalid(m)) => m,
        other => panic!("expected an invalid-config error, got {:?}", other),
    }
}

#[test]
fn validation_rules() {
    assert!(config(vec![("a".to_string(), model(Workload::Embedding, 1, false))]).validate().is_ok());
    assert_eq!(invalid_message(config(vec![]).validate()), "no models configured");
    assert_eq!(
        invalid_message(config(vec![("a".to_string(), model(Workload::Embedding, 0, false))]).validate()),
        "model 'a' has max_concurrency = 0"
    );
    assert_eq!(
        invalid_message(config(vec![("e".to_string(), model(Workload::Embedding, 2, true))]).validate()),
        "model 'e' enables streaming but is not a chat_completion workload"
    );
    assert!(config(vec![("c".to_string(), model(Workload::ChatCompletion, 2, true))]).validate().is_ok());
    // The first offending model is reported.
    let cfg = config(vec![
        ("ok".to_string(), model(Workload::ChatCompletion, 2, true)),
        ("z".to_string(), model(Workload::Embedding, 0, true)),
        ("y".to_string(), model(Workload::Embedding, 0, false)),
    ]);
    assert_eq!(invalid_message(cfg.validate()), "model 'z' has max_concurrency = 0");
}

#[test]
fn defaults_and_durations() {
    assert_eq!(default_max_request_bytes(), 1048576);
    assert!(default_true());
    let r = RetryConfig::default();
    assert_eq!(r.max_retries, 0);
    assert!(r.only_on_connect_error);
    let cfg = config(vec![]);
    assert_eq!(cfg.queue_timeout(), 200_000_000);
    assert_eq!(cfg.default_deadline(), 2_000_000_000);
    assert_eq!(model(Workload::Embedding, 1, false).timeout(), 250_000_000);
}

#[test]
fn wire_names() {
    assert_eq!(Workload::ImageClassification.as_str(), "image_classification");
    assert_eq!(Workload::Embedding.as_str(), "embedding");
    assert_eq!(Workload::ChatCompletion.as_str(), "chat_completion");
    assert_eq!(Backend::Triton.as_str(), "triton");
    assert_eq!(Backend::Dynamo.as_str(), "dynamo");
    assert_eq!(Protocol::Http.as_str(), "http");
    assert_eq!(Protocol::Grpc.as_str(), "grpc");
}

#[test]
fn error_codes_and_statuses() {
    let all = [
        (ErrorCode::BadRequest, "bad_request", 400),
        (ErrorCode::UnknownModel, "unknown_model", 404),
        (ErrorCode::PayloadTooLarge, "payload_too_large", 413),
        (ErrorCode::QueueFull, "queue_full", 429),
        (ErrorCode::QueueTimeout, "queue_timeout", 429),
        (ErrorCode::Overloaded, "overloaded", 503),
        (ErrorCode::CircuitOpen, "circuit_open", 503),
        (ErrorCode::BackendUnhealthy, "backend_unhealthy", 503),
        (ErrorCode::DeadlineExceeded, "deadline_exceeded", 504),
        (ErrorCode::UpstreamError, "upstream_error", 503),
        (ErrorCode::UpstreamMalformed, "upstream_malformed", 502),
        (ErrorCode::Internal, "internal", 502),
    ];
    for (code, name, status) in all {
        assert_eq!(code.as_str(), name);
        assert_eq!(code.status(), status);
    }
}

#[test]
fn gateway_error_constructors() {
    let e = GatewayError::unknown_model("nope");
    assert_eq!(e.code, ErrorCode::UnknownModel);
    assert_eq!(e.message, "unknown model 'nope'");
    assert!(e.request_id.is_none());
    let e = e.with_request_id("abc-123");
    assert_eq!(e.request_id.as_deref(), Some("abc-123"));
    assert_eq!(e.to_display_string(), "unknown_model: unknown model 'nope'");
    assert_eq!(GatewayError::bad_request("x").code, ErrorCode::BadRequest);
    assert_eq!(GatewayError::upstream("y").code, ErrorCode::UpstreamError);
    let e = GatewayError::internal("z");
    assert_eq!((e.code, e.message.as_str()), (ErrorCode::Internal, "z"));
}

#[test]
fn detects_repeated_model_names() {
    let a = model(Workload::Embedding, 1, false);
    assert!(config(vec![]).has_unique_names());
    assert!(config(vec![("a".to_string(), a.clone()), ("b".to_string(), a.clone())]).has_unique_names());
    assert!(!config(vec![
        ("a".to_string(), a.clone()),
        ("b".to_string(), a.clone()),
        ("a".to_string(), a.clone()),
    ])
    .has_unique_names());
}
