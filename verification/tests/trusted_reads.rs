use fusionserve_gateway::admission::backpressure::{AcquireOutcome, Admission, AdmitReject};
use fusionserve_gateway::api::chat::chat_request_checks;
use fusionserve_gateway::api::infer::embeddings_model;
use fusionserve_gateway::clients::{classify_send_error, UpstreamError};
use fusionserve_gateway::config::{
    AdmissionConfig, Backend, CircuitBreakerConfig, Config, HealthConfig, ModelConfig, Protocol,
    RetryConfig, ServerConfig, Workload,
};
use fusionserve_gateway::routing::health_router::endpoint_metric_id;
use fusionserve_gateway::routing::registry::{BackendHealth, Registry};

fn chat_registry() -> Registry {
    let qwen = ModelConfig {
        workload: Workload::ChatCompletion,
        backend: Backend::Dynamo,
        protocol: Protocol::Http,
        endpoint: "http://d:2".to_string(),
        timeout_ms: 500,
        max_concurrency: 4,
        streaming: true,
        max_request_bytes: 1 << 20,
        retry: RetryConfig::default(),
    };
    Registry::build(&Config {
        server: ServerConfig {
            bind_addr: "127.0.0.1:0".to_string(),
            global_max_inflight: 10,
            default_deadline_ms: 2000,
        },
        admission: AdmissionConfig {
            queue_capacity: 8,
            queue_timeout_ms: 200,
            circuit_breaker: CircuitBreakerConfig {
                failure_threshold: 3,
                open_cooldown_ms: 500,
                half_open_success_threshold: 1,
            },
        },
        health: HealthConfig { poll_interval_ms: 60000, unhealthy_after: 3 },
        models: vec![("qwen_small".to_string(), qwen)],
    })
}

#[test]
fn send_error_that_is_not_a_timeout_is_a_connect_error_with_its_text() {
    let e = reqwest::Client::new().get("not a url").build().unwrap_err();
    assert!(!e.is_timeout());
    let text = e.to_string();
    match classify_send_error(e) {
        UpstreamError::Connect(m) => assert_eq!(m, text),
        other => panic!("unexpected {other:?}"),
    }
}

#[test]
fn chat_plan_reads_model_stream_and_keeps_the_body() {
    let reg = chat_registry();
    let body = br#"{"model": "qwen_small", "stream": true, "messages": [{"role": "user"}]}"#;
    let plan = chat_request_checks(&reg, body, "r").unwrap();
    assert_eq!(plan.model, "qwen_small");
    assert!(plan.stream);
    assert_eq!(plan.payload["messages"][0]["role"], "user");
    let plan = chat_request_checks(&reg, br#"{"model": "qwen_small"}"#, "r").unwrap();
    assert!(!plan.stream);
    let e = chat_request_checks(&reg, br#"{"model": ["qwen_small"]}"#, "r").err().unwrap();
    assert_eq!(e.message, "missing 'model' field");
}

#[test]
fn embeddings_model_is_the_body_model_member() {
    assert_eq!(embeddings_model(br#"{"input": "x", "model": "text_embedding"}"#, "r").unwrap(), "text_embedding");
    assert!(embeddings_model(br#"[{"model": "text_embedding"}]"#, "r").is_err());
    assert!(embeddings_model(br#"{"inputs": {"model": "nested"}}"#, "r").is_err());
}

#[test]
fn health_follows_the_failures_since_the_last_success() {
    let mut h = BackendHealth::new(Backend::Triton, "http://t:1".to_string());
    for _ in 0..10 {
        h.record_poll(false, 3);
    }
    assert!(!h.is_healthy());
    assert_eq!(h.consecutive_poll_failures(), 10);
    h.record_poll(true, 3);
    assert!(h.is_healthy());
    h.record_poll(false, 3);
    h.record_poll(false, 3);
    assert!(h.is_healthy());
    h.record_poll(false, 3);
    assert!(!h.is_healthy());
    assert!(h.is_enabled());
}

#[test]
fn interleaved_requests_stay_within_the_limits() {
    // Two permits, two places in the waiting room.
    let mut a = Admission::new(2, 2, 1_000_000);
    a.enter_queue().unwrap();
    a.enter_queue().unwrap();
    assert_eq!(a.enter_queue(), Err(AdmitReject::QueueFull));
    a.leave_queue(AcquireOutcome::Acquired).unwrap();
    a.enter_queue().unwrap();
    a.leave_queue(AcquireOutcome::Acquired).unwrap();
    assert_eq!(a.inflight(), 2);
    assert_eq!(a.queue_depth(), 1);
    a.release();
    a.leave_queue(AcquireOutcome::Acquired).unwrap();
    assert_eq!((a.queue_depth(), a.inflight()), (0, 2));
}

#[test]
fn endpoint_metric_ids_name_kind_and_position() {
    assert_eq!(endpoint_metric_id(Backend::Triton, 0), "triton-0");
    assert_eq!(endpoint_metric_id(Backend::Dynamo, 12), "dynamo-12");
}
