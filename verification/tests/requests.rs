use fusionserve_gateway::api::chat::{chat_request_checks, check_chat_request, contains_done_marker, StreamProgress};
use fusionserve_gateway::api::infer::{check_infer_request, embeddings_model, infer_request_checks};
use fusionserve_gateway::config::{
    AdmissionConfig, Backend, CircuitBreakerConfig, Config, HealthConfig, ModelConfig, Protocol,
    RetryConfig, ServerConfig, Workload,
};
use fusionserve_gateway::error::ErrorCode;
use fusionserve_gateway::routing::classifier::ApiSurface;
use fusionserve_gateway::routing::registry::Registry;

fn registry() -> Registry {
    let m = |workload, backend, endpoint: &str, streaming, max_request_bytes| ModelConfig {
        workload,
        backend,
        protocol: Protocol::Http,
        endpoint: endpoint.to_string(),
        timeout_ms: 500,
        max_concurrency: 4,
        streaming,
        max_request_bytes,
        retry: RetryConfig::default(),
    };
    Registry::build(&Config {
        server: ServerConfig {
            bind_addr: "127.0.0.1:0".to_string(),
            global_max_inflight: 100,
            default_deadline_ms: 2000,
        },
        admission: AdmissionConfig {
            queue_capacity: 8,
            queue_timeout_ms: 200,
            circuit_breaker: CircuitBreakerConfig {
                failure_threshold: 3,
                open_cooldown_ms: 500,
                half_open_success_threshold: 1,
            },
        },
        health: HealthConfig { poll_interval_ms: 60000, unhealthy_after: 3 },
        models: vec![
            ("resnet50".to_string(), m(Workload::ImageClassification, Backend::Triton, "http://t:1", false, 1024)),
            ("text_embedding".to_string(), m(Workload::Embedding, Backend::Triton, "http://t:1", false, 1 << 20)),
            ("qwen_small".to_string(), m(Workload::ChatCompletion, Backend::Dynamo, "http://d:2", true, 1 << 20)),
            ("qwen_unary".to_string(), m(Workload::ChatCompletion, Backend::Dynamo, "http://d:2", false, 1 << 20)),
        ],
    })
}

#[test]
fn infer_checks_unknown_model_then_surface_then_size_then_json() {
    let reg = registry();
    let e = infer_request_checks(&reg, "does_not_exist", ApiSurface::Infer, br#"{"inputs": []}"#, "rid")
        .err()
        .unwrap();
    assert_eq!((e.code, e.code.status()), (ErrorCode::UnknownModel, 404));
    assert_eq!(e.request_id.as_deref(), Some("rid"));
    let e = infer_request_checks(&reg, "qwen_small", ApiSurface::Infer, br#"{"inputs": []}"#, "rid")
        .err()
        .unwrap();
    assert_eq!(e.code, ErrorCode::BadRequest);
    let big = format!("{{\"inputs\": \"{}\"}}", "x".repeat(4096));
    let e = infer_request_checks(&reg, "resnet50", ApiSurface::Infer, big.as_bytes(), "rid")
        .err()
        .unwrap();
    assert_eq!((e.code, e.code.status()), (ErrorCode::PayloadTooLarge, 413));
    assert_eq!(e.message, format!("request body {} bytes exceeds limit 1024", big.len()));
    let e = infer_request_checks(&reg, "resnet50", ApiSurface::Infer, b"{", "rid").err().unwrap();
    assert_eq!(e.code, ErrorCode::BadRequest);
    assert!(e.message.starts_with("invalid JSON body: "));
    let plan = infer_request_checks(&reg, "resnet50", ApiSurface::Infer, br#"{"inputs": [1, 2, 3]}"#, "rid")
        .unwrap();
    assert_eq!(plan.route.backend, Backend::Triton);
    assert_eq!(plan.payload["inputs"][2], 3);
}

#[test]
fn infer_check_with_given_parse_outcome() {
    let reg = registry();
    let e = check_infer_request(&reg, "text_embedding", ApiSurface::Embed, 10, Some("EOF"), "r")
        .err()
        .unwrap();
    assert_eq!(e.message, "invalid JSON body: EOF");
    assert!(check_infer_request(&reg, "text_embedding", ApiSurface::Embed, 10, None, "r").is_ok());
    assert!(check_infer_request(&reg, "text_embedding", ApiSurface::Infer, 10, None, "r").is_ok());
}

#[test]
fn embeddings_need_a_model_field() {
    let e = embeddings_model(br#"{"inputs": []}"#, "rid").err().unwrap();
    assert_eq!((e.code, e.message.as_str()), (ErrorCode::BadRequest, "missing 'model' field"));
    assert_eq!(e.request_id.as_deref(), Some("rid"));
    assert!(embeddings_model(b"not json", "rid").is_err());
    assert!(embeddings_model(br#"{"model": 7}"#, "rid").is_err());
    assert_eq!(embeddings_model(br#"{"model": "does_not_exist", "inputs": []}"#, "rid").unwrap(), "does_not_exist");
}

#[test]
fn rejects_invalid_chat_requests_before_admission() {
    let reg = registry();
    let e = chat_request_checks(&reg, b"{", "r").err().unwrap();
    assert_eq!(e.code.status(), 400);
    assert!(e.message.starts_with("invalid JSON body: "));
    let e = chat_request_checks(&reg, br#"{"messages": []}"#, "r").err().unwrap();
    assert_eq!((e.code, e.message.as_str()), (ErrorCode::BadRequest, "missing 'model' field"));
    let e = chat_request_checks(&reg, br#"{"model": "qwen_unary", "stream": true, "messages": []}"#, "r")
        .err()
        .unwrap();
    assert_eq!((e.code, e.message.as_str()), (ErrorCode::BadRequest, "model does not support streaming"));
    let e = chat_request_checks(&reg, br#"{"model": "resnet50", "messages": []}"#, "r").err().unwrap();
    assert_eq!(e.code, ErrorCode::BadRequest);
    let e = chat_request_checks(&reg, br#"{"model": "nope"}"#, "r").err().unwrap();
    assert_eq!(e.code, ErrorCode::UnknownModel);
}

#[test]
fn accepts_chat_requests() {
    let reg = registry();
    let plan = chat_request_checks(&reg, br#"{"model": "qwen_small", "stream": true, "messages": []}"#, "r")
        .unwrap();
    assert!(plan.stream);
    assert_eq!(plan.model, "qwen_small");
    assert_eq!(plan.route.backend, Backend::Dynamo);
    let plan = chat_request_checks(&reg, br#"{"model": "qwen_unary", "stream": "yes"}"#, "r").unwrap();
    assert!(!plan.stream);
    let e = check_chat_request(&reg, (1 << 20) + 1, None, Some("qwen_small"), None, "r").err().unwrap();
    assert_eq!((e.code, e.message.as_str()), (ErrorCode::PayloadTooLarge, "request body too large"));
}

#[test]
fn done_marker_detection() {
    assert!(contains_done_marker(b"data: [DONE]"));
    assert!(contains_done_marker(b"data: {\"x\":1}\n\ndata: [DONE]\n\n"));
    assert!(!contains_done_marker(b"data: [DONE"));
    assert!(!contains_done_marker(b""));
    assert!(!contains_done_marker(b"data:  [DONE]"));
}

#[test]
fn stream_progress_counts_cancellation_only_before_completion() {
    let mut p = StreamProgress::new();
    assert!(p.on_chunk(b"data: {}\n\n"));
    assert!(!p.on_chunk(b"data: {}\n\n"));
    assert!(p.cancelled());
    p.on_chunk(b"data: [DONE]\n\n");
    assert!(!p.cancelled());

    let mut q = StreamProgress::new();
    q.on_error();
    assert!(!q.cancelled());
    let mut r = StreamProgress::new();
    r.on_end();
    assert!(!r.cancelled());
    assert!(!r.first_seen);
}
