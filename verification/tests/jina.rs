use std::time::Duration;

use crawlkit_extensions::jina::{JinaClient, JinaClientBuilder, JinaError, JinaFormat};
use crawlkit_extensions::retry::RetryDecision;

#[test]
fn test_jina_format_default() {
    assert_eq!(JinaFormat::default(), JinaFormat::Markdown);
}

#[test]
fn test_jina_format_accept_header() {
    assert_eq!(JinaFormat::Markdown.accept_header(), "text/markdown");
    assert_eq!(JinaFormat::Html.accept_header(), "text/html");
    assert_eq!(JinaFormat::Text.accept_header(), "text/plain");
}

#[test]
fn test_jina_builder_defaults() {
    let client = JinaClient::builder().build();
    assert_eq!(client.name(), "jina");
    assert!(client.api_token().is_none());
}

#[test]
fn test_jina_builder_with_token() {
    let client = JinaClient::builder()
        .with_token("test-token")
        .build();
    assert_eq!(client.api_token(), Some("test-token"));
}

#[test]
fn test_jina_builder_with_name() {
    let client = JinaClient::builder()
        .with_name("custom")
        .build();
    assert_eq!(client.name(), "custom");
}

#[test]
fn jina_default_settings() {
    let client = JinaClient::default();
    assert_eq!(client.timeout(), Duration::from_secs(60));
    assert_eq!(client.max_retries(), 3);
    assert_eq!(client.format(), JinaFormat::Markdown);
}

#[test]
fn jina_builder_setters() {
    let client = JinaClientBuilder::default()
        .with_timeout(Duration::from_secs(30))
        .with_max_retries(5)
        .with_format(JinaFormat::Html)
        .build();
    assert_eq!(client.timeout(), Duration::from_secs(30));
    assert_eq!(client.max_retries(), 5);
    assert_eq!(client.format(), JinaFormat::Html);
}

#[test]
fn jina_token_from_environment_value() {
    let set = JinaClient::builder().with_token_value(Some("env-token".to_string())).build();
    assert_eq!(set.api_token(), Some("env-token"));
    let empty = JinaClient::builder().with_token("old").with_token_value(Some(String::new())).build();
    assert_eq!(empty.api_token(), None);
    let unset = JinaClient::builder().with_token("old").with_token_value(None).build();
    assert_eq!(unset.api_token(), None);
}

#[test]
fn jina_reader_url() {
    let client = JinaClient::default();
    assert_eq!(client.reader_url("https://example.com"), "https://r.jina.ai/https://example.com");
}

#[test]
fn jina_request_headers_without_token() {
    let client = JinaClient::builder().with_format(JinaFormat::Text).build();
    assert_eq!(
        client.request_headers(),
        vec![("Accept".to_string(), "text/plain".to_string())]
    );
}

#[test]
fn jina_request_headers_with_token() {
    let client = JinaClient::builder().with_token("abc").build();
    assert_eq!(
        client.request_headers(),
        vec![
            ("Accept".to_string(), "text/markdown".to_string()),
            ("Authorization".to_string(), "Bearer abc".to_string()),
        ]
    );
}

#[test]
fn jina_answer_status() {
    let ok = JinaClient::check_answer("https://example.com/".to_string(), 200, "# Title".to_string());
    assert_eq!(ok, Ok(("https://example.com/".to_string(), 200, "# Title".to_string())));
    let redirect = JinaClient::check_answer("u".to_string(), 399, "b".to_string());
    assert!(redirect.is_ok());
    let err = JinaClient::check_answer("u".to_string(), 400, "bad".to_string());
    assert_eq!(err, Err(JinaError::Status { status: 400, body: "bad".to_string() }));
}

#[test]
fn jina_retries_follow_budget() {
    let client = JinaClient::builder().with_max_retries(2).build();
    let mut retrier = client.retrier();
    assert!(matches!(retrier.on_failure(), RetryDecision::RetryAfter(d) if d == Duration::from_secs(1)));
    assert!(matches!(retrier.on_failure(), RetryDecision::RetryAfter(d) if d == Duration::from_secs(2)));
    assert!(matches!(retrier.on_failure(), RetryDecision::GiveUp));
    assert!(matches!(retrier.on_failure(), RetryDecision::GiveUp));
}

#[test]
fn retry_delays_double_up_to_a_minute() {
    let client = JinaClient::builder().with_max_retries(9).build();
    let mut retrier = client.retrier();
    let mut delays = Vec::new();
    while let RetryDecision::RetryAfter(d) = retrier.on_failure() {
        delays.push(d.as_secs());
    }
    assert_eq!(delays, vec![1, 2, 4, 8, 16, 32, 60, 60, 60]);
}
