use codex_anthropic::auth::AnthropicAuthProvider;
use http::HeaderMap;

#[test]
fn anthropic_auth_provider_adds_correct_headers() {
    let auth = AnthropicAuthProvider::new("sk-ant-test123".to_string());
    let mut headers = HeaderMap::new();

    auth.add_auth_headers(&mut headers);

    assert_eq!(
        headers.get("x-api-key").and_then(|v| v.to_str().ok()),
        Some("sk-ant-test123")
    );
    assert_eq!(
        headers
            .get("anthropic-version")
            .and_then(|v| v.to_str().ok()),
        Some("2023-06-01")
    );
}

#[test]
fn key_that_cannot_be_a_header_is_left_out() {
    let auth = AnthropicAuthProvider::new("bad\nkey".to_string());
    let mut headers = HeaderMap::new();

    auth.add_auth_headers(&mut headers);

    assert!(headers.get("x-api-key").is_none());
    assert_eq!(
        headers.get("anthropic-version").and_then(|v| v.to_str().ok()),
        Some("2023-06-01")
    );
    assert_eq!(headers.len(), 1);
}

#[test]
fn auth_headers_replace_earlier_values() {
    let auth = AnthropicAuthProvider::new("new-key".to_string());
    let mut headers = HeaderMap::new();
    headers.append("x-api-key", "old-key".parse().unwrap());
    headers.append("x-api-key", "older-key".parse().unwrap());
    headers.insert("anthropic-version", "1999-01-01".parse().unwrap());
    headers.insert("accept", "text/event-stream".parse().unwrap());

    auth.add_auth_headers(&mut headers);

    let keys: Vec<&str> = headers
        .get_all("x-api-key")
        .iter()
        .map(|v| v.to_str().unwrap())
        .collect();
    assert_eq!(keys, vec!["new-key"]);
    assert_eq!(
        headers.get("anthropic-version").and_then(|v| v.to_str().ok()),
        Some("2023-06-01")
    );
    assert_eq!(
        headers.get("accept").and_then(|v| v.to_str().ok()),
        Some("text/event-stream")
    );
}

#[test]
fn non_ascii_key_is_kept_as_utf8_bytes() {
    let auth = AnthropicAuthProvider::new("clé".to_string());
    let mut headers = HeaderMap::new();

    auth.add_auth_headers(&mut headers);

    let value = headers.get("x-api-key").expect("key header");
    assert_eq!(value.as_bytes(), "clé".as_bytes());
    assert!(value.to_str().is_err());
}

#[test]
fn adding_auth_headers_twice_equals_once() {
    let auth = AnthropicAuthProvider::new("sk-ant-test123".to_string());
    let mut once = HeaderMap::new();
    once.insert("accept", "text/event-stream".parse().unwrap());
    let mut twice = once.clone();
    auth.add_auth_headers(&mut once);
    auth.add_auth_headers(&mut twice);
    auth.add_auth_headers(&mut twice);
    assert_eq!(once, twice);
}
