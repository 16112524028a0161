use fusionserve_gateway::admission::backpressure::{AcquireOutcome, AdmitReject};
use fusionserve_gateway::admission::circuit_breaker::State;
use fusionserve_gateway::api::admin::{disable_backend, enable_backend, list_backends, list_routes};
use fusionserve_gateway::api::health::{healthz, readyz};
use fusionserve_gateway::api::models::{get_model, list_models};
use fusionserve_gateway::config::{
    AdmissionConfig, Backend, CircuitBreakerConfig, Config, HealthConfig, ModelConfig, Protocol,
    RetryConfig, ServerConfig, Workload,
};
use fusionserve_gateway::error::ErrorCode;
use fusionserve_gateway::routing::health_router::{health_gauge, health_url};
use fusionserve_gateway::routing::registry::{BackendHealth, Registry};

const TRITON: &str = "http://127.0.0.1:59001";
const DYNAMO: &str = "http://127.0.0.1:59000";

fn model(workload: Workload, backend: Backend, endpoint: &str, streaming: bool) -> ModelConfig {
    ModelConfig {
        workload,
        backend,
        protocol: Protocol::Http,
        endpoint: endpoint.to_string(),
        timeout_ms: 500,
        max_concurrency: 8,
        streaming,
        max_request_bytes: 1024,
        retry: RetryConfig::default(),
    }
}

fn registry() -> Registry {
    let cfg = Config {
        server: ServerConfig {
            bind_addr: "127.0.0.1:0".to_string(),
            global_max_inflight: 100,
            default_deadline_ms: 2000,
        },
        admission: AdmissionConfig {
            queue_capacity: 8,
            queue_timeout_ms: 200,
            circuit_breaker: CircuitBreakerConfig {
                failure_threshold: 3,
                open_cooldown_ms: 500,
                half_open_success_threshold: 1,
            },
        },
        health: HealthConfig { poll_interval_ms: 60000, unhealthy_after: 3 },
        models: vec![
            ("resnet50".to_string(), model(Workload::ImageClassification, Backend::Triton, TRITON, false)),
            ("qwen_small".to_string(), model(Workload::ChatCompletion, Backend::Dynamo, DYNAMO, true)),
            ("text_embedding".to_string(), model(Workload::Embedding, Backend::Triton, TRITON, false)),
        ],
    };
    Registry::build(&cfg)
}

#[test]
fn models_sharing_an_endpoint_share_health() {
    let reg = registry();
    assert_eq!(reg.backends().len(), 2);
    let a = reg.find_model("resnet50").unwrap();
    let b = reg.find_model("text_embedding").unwrap();
    assert_eq!(reg.models()[a].health, reg.models()[b].health);
    assert_ne!(reg.models()[a].health, reg.models()[reg.find_model("qwen_small").unwrap()].health);
    assert!(reg.model("nope").is_none());
    assert_eq!(reg.backend(TRITON).unwrap().backend, Backend::Triton);
    assert!(reg.backend("http://elsewhere").is_none());
}

#[test]
fn model_names_are_sorted() {
    let reg = registry();
    assert_eq!(reg.model_names(), vec!["qwen_small", "resnet50", "text_embedding"]);
}

#[test]
fn lists_models() {
    let reg = registry();
    let names: Vec<String> = list_models(&reg).into_iter().map(|m| m.name).collect();
    assert!(names.contains(&"resnet50".to_string()));
    assert!(names.contains(&"qwen_small".to_string()));
    assert_eq!(names, vec!["qwen_small", "resnet50", "text_embedding"]);
}

#[test]
fn get_model_reports_capabilities_and_unknown_models() {
    let reg = registry();
    let m = get_model(&reg, "qwen_small").unwrap();
    assert_eq!(m.workload, Workload::ChatCompletion);
    assert!(m.streaming);
    assert!(m.healthy);
    assert_eq!(m.circuit_state, 0);
    let e = get_model(&reg, "does_not_exist").err().unwrap();
    assert_eq!(e.code, ErrorCode::UnknownModel);
    assert_eq!(e.code.status(), 404);
}

#[test]
fn admin_disable_makes_backend_unroutable_in_registry() {
    let mut reg = registry();
    let t = disable_backend(&mut reg, TRITON).unwrap();
    assert!(!t.enabled);
    assert!(!t.routable);
    for name in ["resnet50", "text_embedding"] {
        let i = reg.find_model(name).unwrap();
        assert!(!reg.health_of(i).is_routable());
    }
    let q = reg.find_model("qwen_small").unwrap();
    assert!(reg.health_of(q).is_routable());
    let t = enable_backend(&mut reg, TRITON).unwrap();
    assert!(t.routable);
    let e = disable_backend(&mut reg, "http://nowhere").err().unwrap();
    assert_eq!(e.code, ErrorCode::UnknownModel);
    assert_eq!(e.message, "no backend with endpoint 'http://nowhere'");
}

#[test]
fn readyz_reflects_backends() {
    let mut reg = registry();
    assert_eq!(healthz(), 200);
    let r = readyz(&reg);
    assert!(r.ready);
    assert_eq!(r.status(), 200);
    assert_eq!(r.backends.len(), 2);
    for ep in [TRITON, DYNAMO] {
        disable_backend(&mut reg, ep).unwrap();
    }
    let r = readyz(&reg);
    assert!(!r.ready);
    assert_eq!(r.status(), 503);
    assert_eq!(list_backends(&reg).iter().filter(|b| b.enabled).count(), 0);
}

#[test]
fn routes_table() {
    let reg = registry();
    let routes = list_routes(&reg);
    assert_eq!(routes.len(), 3);
    assert_eq!(routes[1].model, "qwen_small");
    assert_eq!(routes[1].backend, Backend::Dynamo);
    assert_eq!(routes[1].endpoint, DYNAMO);
}

#[test]
fn health_polls_flip_and_restore_health() {
    let mut h = BackendHealth::new(Backend::Dynamo, DYNAMO.to_string());
    assert!(h.is_routable());
    h.record_poll(false, 3);
    h.record_poll(false, 3);
    assert!(h.is_healthy());
    h.record_poll(false, 3);
    assert!(!h.is_healthy());
    assert!(!h.is_routable());
    assert_eq!(h.consecutive_poll_failures(), 3);
    h.record_poll(true, 3);
    assert!(h.is_healthy());
    assert_eq!(h.consecutive_poll_failures(), 0);
    h.set_enabled(false);
    assert!(h.is_healthy() && !h.is_routable());
}

#[test]
fn health_polls_through_the_registry() {
    let mut reg = registry();
    let b = reg.find_backend(DYNAMO).unwrap();
    reg.record_poll_at(b, false, 1);
    let q = reg.find_model("qwen_small").unwrap();
    assert!(!reg.health_of(q).is_healthy());
    assert_eq!(health_gauge(reg.health_of(q).is_healthy()), 0);
    reg.record_poll_at(b, true, 1);
    assert_eq!(health_gauge(reg.health_of(q).is_healthy()), 1);
}

#[test]
fn health_urls() {
    assert_eq!(health_url(Backend::Triton, "http://triton:8001/"), "http://triton:8001/v2/health/ready");
    assert_eq!(health_url(Backend::Dynamo, "http://dynamo:8000//"), "http://dynamo:8000/health");
    assert_eq!(health_url(Backend::Dynamo, "http://dynamo:8000"), "http://dynamo:8000/health");
}

#[test]
fn per_model_state_through_the_registry() {
    let mut reg = registry();
    let i = reg.find_model("resnet50").unwrap();
    for _ in 0..3 {
        assert!(reg.breaker_allow(i));
        reg.breaker_on_failure(i);
    }
    assert_eq!(reg.models()[i].breaker.state(), State::Open);
    assert!(!reg.breaker_allow(i));
    // Another model on the same endpoint is unaffected.
    let j = reg.find_model("text_embedding").unwrap();
    assert_eq!(reg.models()[j].breaker.state(), State::Closed);
    reg.breaker_on_success(j);

    assert_eq!(reg.enter_queue(i), Ok(()));
    assert_eq!(reg.leave_queue(i, AcquireOutcome::Acquired), Ok(()));
    assert_eq!(reg.models()[i].admission.inflight(), 1);
    reg.release(i);
    assert_eq!(reg.models()[i].admission.inflight(), 0);
    assert_eq!(reg.enter_queue(i), Ok(()));
    assert_eq!(reg.leave_queue(i, AcquireOutcome::TimedOut), Err(AdmitReject::QueueTimeout));
}
