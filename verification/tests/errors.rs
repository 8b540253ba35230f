use genai_types::errors::GenAiError;

#[test]
fn http_error_text() {
    let e = GenAiError::HttpError("connection reset".to_string());
    assert_eq!(e.to_string(), "HTTP error: connection reset");
}

#[test]
fn json_error_text() {
    let e = GenAiError::JsonError("expected value".to_string());
    assert_eq!(e.to_string(), "JSON error: expected value");
}

#[test]
fn api_error_text_holds_status_and_message() {
    let e = GenAiError::ApiError { status: 429, message: "slow down".to_string() };
    assert_eq!(e.to_string(), "API error (429): slow down");
    let e = GenAiError::ApiError { status: 0, message: String::new() };
    assert_eq!(e.to_string(), "API error (0): ");
    let e = GenAiError::ApiError { status: u16::MAX, message: "x".to_string() };
    assert_eq!(e.to_string(), "API error (65535): x");
}

#[test]
fn invalid_response_text() {
    let e = GenAiError::InvalidResponse("no content".to_string());
    assert_eq!(e.to_string(), "Invalid response: no content");
}

#[test]
fn rate_limit_text_with_retry_after() {
    let e = GenAiError::RateLimitExceeded { retry_after: Some(30) };
    assert_eq!(e.to_string(), "Rate limit exceeded. Retry after 30 seconds");
    let e = GenAiError::RateLimitExceeded { retry_after: Some(0) };
    assert_eq!(e.to_string(), "Rate limit exceeded. Retry after 0 seconds");
}

#[test]
fn rate_limit_text_without_retry_after() {
    let e = GenAiError::RateLimitExceeded { retry_after: None };
    assert_eq!(e.to_string(), "Rate limit exceeded");
}

#[test]
fn authentication_error_text() {
    let e = GenAiError::AuthenticationError("bad key".to_string());
    assert_eq!(e.to_string(), "Authentication error: bad key");
}

#[test]
fn parser_failure_becomes_json_error_with_its_text() {
    let failure = serde_json::from_str::<serde_json::Value>("{\"a\": }").unwrap_err();
    let text = failure.to_string();
    assert!(!text.is_empty());
    let e = GenAiError::from(failure);
    assert_eq!(e, GenAiError::JsonError(text.clone()));
    assert_eq!(e.to_string(), format!("JSON error: {}", text));
}
