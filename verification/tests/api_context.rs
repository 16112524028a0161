use fusionserve_gateway::api::{
    build_context, check_deadline_after, effective_timeout, request_id_from, resolve_deadline, timeout_within,
};
use fusionserve_gateway::config::{Backend, Workload};
use fusionserve_gateway::observability::request_context::{new_request_id, RequestContext};

const SECOND_NS: u128 = 1_000_000_000;
const MILLI_NS: u128 = 1_000_000;

#[test]
fn accepts_safe_correlation_id() {
    assert_eq!(request_id_from(Some("job_42.retry-1")), "job_42.retry-1");
}

#[test]
fn replaces_oversized_or_unsafe_correlation_id() {
    assert_ne!(request_id_from(Some("unsafe/value")), "unsafe/value");

    let long = "a".repeat(129);
    assert_ne!(request_id_from(Some(&long)), "a".repeat(129));
}

#[test]
fn client_deadline_can_only_shorten_server_deadline() {
    assert_eq!(resolve_deadline(Some("250"), 5 * SECOND_NS), 250 * MILLI_NS);
    assert_eq!(resolve_deadline(Some("9000"), 5 * SECOND_NS), 5 * SECOND_NS);
}

#[test]
fn request_id_edge_cases() {
    // Exactly 128 safe bytes is accepted.
    let max = "b".repeat(128);
    assert_eq!(request_id_from(Some(&max)), max);
    // Empty and absent ids are replaced by a fresh UUID.
    let fresh = request_id_from(Some(""));
    assert_eq!(fresh.len(), 36);
    let fresh = request_id_from(None);
    assert_eq!(fresh.len(), 36);
    assert!(fresh.chars().all(|c| c.is_ascii_hexdigit() || c == '-'));
    // Non-ASCII is unsafe.
    assert_ne!(request_id_from(Some("café")), "café");
}

#[test]
fn fresh_request_ids_are_hyphenated_uuids() {
    let id = new_request_id();
    assert_eq!(id.len(), 36);
    assert_eq!(&id[8..9], "-");
    assert_eq!(&id[14..15], "4");
    assert_ne!(new_request_id(), id);
}

#[test]
fn deadline_header_parsing() {
    let d = 5 * SECOND_NS;
    assert_eq!(resolve_deadline(None, d), d);
    assert_eq!(resolve_deadline(Some("+7"), d), 7 * MILLI_NS);
    assert_eq!(resolve_deadline(Some("0"), d), 0);
    assert_eq!(resolve_deadline(Some("-5"), d), d);
    assert_eq!(resolve_deadline(Some("12ms"), d), d);
    assert_eq!(resolve_deadline(Some(""), d), d);
    assert_eq!(resolve_deadline(Some("+"), d), d);
    // Larger than u64: not a number for the header.
    assert_eq!(resolve_deadline(Some("18446744073709551616"), d), d);
    assert_eq!(resolve_deadline(Some("18446744073709551615"), u128::MAX), 18446744073709551615u128 * MILLI_NS);
}

#[test]
fn context_and_effective_timeout() {
    let ctx = build_context(
        Some("100"),
        "rid-1".to_string(),
        "resnet50".to_string(),
        Workload::ImageClassification,
        Backend::Triton,
        2 * SECOND_NS,
    );
    assert_eq!(ctx.deadline_ns, 100 * MILLI_NS);
    assert_eq!(ctx.request_id, "rid-1");
    // The model timeout is longer than the deadline: the deadline bounds it.
    let t = effective_timeout(&ctx, 500 * MILLI_NS);
    assert!(t <= 100 * MILLI_NS);
    assert!(t > 0);
    // A short model timeout wins.
    assert_eq!(effective_timeout(&ctx, 1), 1);
    assert!(!ctx.is_expired());
}

#[test]
fn remaining_after_deadline_is_none() {
    let ctx = RequestContext::new(
        "r".to_string(),
        "m".to_string(),
        Workload::ChatCompletion,
        Backend::Dynamo,
        10,
    );
    assert_eq!(ctx.remaining_after(4), Some(6));
    assert_eq!(ctx.remaining_after(10), Some(0));
    assert_eq!(ctx.remaining_after(11), None);
}

#[test]
fn zero_deadline_expires() {
    let ctx = RequestContext::new(
        "r".to_string(),
        "m".to_string(),
        Workload::ChatCompletion,
        Backend::Dynamo,
        0,
    );
    let start = std::time::Instant::now();
    while start.elapsed().as_nanos() < 1000 {}
    assert!(ctx.is_expired());
    assert_eq!(effective_timeout(&ctx, 1_000), 0);
}

#[test]
fn timeout_is_the_smaller_of_budget_and_model_limit() {
    assert_eq!(timeout_within(Some(300), 500), 300);
    assert_eq!(timeout_within(Some(800), 500), 500);
    assert_eq!(timeout_within(Some(500), 500), 500);
    assert_eq!(timeout_within(Some(0), 500), 0);
    assert_eq!(timeout_within(None, 500), 0);
}

#[test]
fn deadline_check_at_a_given_elapsed_time() {
    let received = std::time::Instant::now();
    let ctx = RequestContext::new_at(
        "r".to_string(),
        "m".to_string(),
        Workload::Embedding,
        Backend::Triton,
        10,
        received,
    );
    assert_eq!(ctx.received_at, received);
    assert!(!ctx.is_expired_after(10));
    assert!(ctx.is_expired_after(11));
    assert!(check_deadline_after(&ctx, 10, "r").is_ok());
    let e = check_deadline_after(&ctx, 11, "r").err().unwrap();
    assert_eq!(e.code, fusionserve_gateway::error::ErrorCode::DeadlineExceeded);
    assert_eq!(e.code.status(), 504);
    assert_eq!(e.message, "deadline already elapsed");
    assert_eq!(e.request_id.as_deref(), Some("r"));
}

#[test]
fn minted_ids_are_version_4_uuids() {
    for _ in 0..64 {
        let id = request_id_from(Some("bad id"));
        let chars: Vec<char> = id.chars().collect();
        assert_eq!(chars.len(), 36);
        for (i, c) in chars.iter().enumerate() {
            if [8, 13, 18, 23].contains(&i) {
                assert_eq!(*c, '-');
            } else {
                assert!(c.is_ascii_hexdigit() && !c.is_ascii_uppercase());
            }
        }
        assert_eq!(chars[14], '4');
        assert!(matches!(chars[19], '8' | '9' | 'a' | 'b'));
        // A minted id passes the same check, so it is kept when echoed back.
        assert_eq!(request_id_from(Some(&id)), id);
    }
}
