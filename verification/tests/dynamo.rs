use fusionserve_gateway::clients::dynamo::chat_url;
use fusionserve_gateway::clients::UpstreamError;

#[test]
fn constructs_openai_compatible_url_with_prefix() {
    let url = chat_url("http://dynamo:8000/api/").unwrap();
    assert_eq!(url.as_str(), "http://dynamo:8000/api/v1/chat/completions");
}

#[test]
fn rejects_invalid_endpoint() {
    assert!(chat_url("not a URL").is_err());
}

#[test]
fn chat_url_extends_a_bare_host() {
    let url = chat_url("http://dynamo:8000").unwrap();
    assert_eq!(url.as_str(), "http://dynamo:8000/v1/chat/completions");
}

#[test]
fn chat_url_keeps_a_prefix_without_trailing_slash() {
    let url = chat_url("http://dynamo:8000/api").unwrap();
    assert_eq!(url.as_str(), "http://dynamo:8000/api/v1/chat/completions");
}

#[test]
fn chat_url_reports_why_an_endpoint_does_not_parse() {
    match chat_url("not a URL") {
        Err(UpstreamError::Connect(m)) => {
            assert!(m.starts_with("invalid Dynamo endpoint: "));
            assert!(m.len() > "invalid Dynamo endpoint: ".len());
        }
        other => panic!("unexpected {other:?}"),
    }
}

#[test]
fn chat_url_refuses_an_endpoint_that_cannot_be_a_base() {
    match chat_url("mailto:ops@example.com") {
        Err(UpstreamError::Connect(m)) => {
            assert_eq!(m, "Dynamo endpoint cannot be a base URL");
        }
        other => panic!("unexpected {other:?}"),
    }
}
