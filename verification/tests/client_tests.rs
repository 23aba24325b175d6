use langfuse_cli::client::{classify_status, classify_transport_failure, LangfuseClient, Verb};
use langfuse_cli::config::Config;
use langfuse_cli::error::ApiError;

#[test]
fn test_client_new_with_valid_config() {
    let config = Config {
        public_key: Some("pk-test".to_string()),
        secret_key: Some("sk-test".to_string()),
        host: "https://example.com".to_string(),
        ..Default::default()
    };

    let client = LangfuseClient::new(&config);
    assert!(client.is_ok());
}

#[test]
fn test_client_new_missing_public_key() {
    let config = Config {
        public_key: None,
        secret_key: Some("sk-test".to_string()),
        host: "https://example.com".to_string(),
        ..Default::default()
    };

    let client = LangfuseClient::new(&config);
    assert!(client.is_err());
    assert!(client.unwrap_err().message().contains("Public key"));
}

#[test]
fn test_client_new_missing_secret_key() {
    let config = Config {
        public_key: Some("pk-test".to_string()),
        secret_key: None,
        host: "https://example.com".to_string(),
        ..Default::default()
    };

    let client = LangfuseClient::new(&config);
    assert!(client.is_err());
    assert!(client.unwrap_err().message().contains("Secret key"));
}

#[test]
fn test_client_new_empty_key_refused() {
    let config = Config {
        public_key: Some("".to_string()),
        secret_key: Some("sk-test".to_string()),
        host: "https://example.com".to_string(),
        ..Default::default()
    };

    let client = LangfuseClient::new(&config);
    assert!(client.is_err());
    assert!(client.unwrap_err().message().contains("Public key"));
}

#[test]
fn test_client_new_empty_host_refused() {
    let config = Config {
        public_key: Some("pk-test".to_string()),
        secret_key: Some("sk-test".to_string()),
        host: "".to_string(),
        ..Default::default()
    };

    let client = LangfuseClient::new(&config);
    assert!(client.is_err());
    assert!(client.unwrap_err().message().contains("Host"));
}

#[test]
fn test_api_error_display() {
    let auth_err = ApiError::AuthenticationError;
    assert!(auth_err.message().contains("Authentication failed"));

    let not_found = ApiError::NotFoundError("trace-123".to_string());
    assert!(not_found.message().contains("trace-123"));

    let rate_limit = ApiError::RateLimitError;
    assert!(rate_limit.message().contains("Rate limit"));

    let timeout = ApiError::TimeoutError;
    assert!(timeout.message().contains("timeout"));

    let api_err = ApiError::ApiError {
        status: 500,
        message: "Internal error".to_string(),
    };
    assert!(api_err.message().contains("500"));
    assert!(api_err.message().contains("Internal error"));

    let network_err = ApiError::NetworkError("Connection refused".to_string());
    assert!(network_err.message().contains("Connection refused"));
}

#[test]
fn test_api_urls() {
    let config = Config {
        public_key: Some("pk-test".to_string()),
        secret_key: Some("sk-test".to_string()),
        host: "https://example.com".to_string(),
        ..Default::default()
    };
    let client = LangfuseClient::new(&config).unwrap();

    assert_eq!(client.api_url("/traces"), "https://example.com/api/public/traces");
    assert_eq!(
        client.api_url_v2("/prompts"),
        "https://example.com/api/public/v2/prompts"
    );
}

#[test]
fn test_classify_authentication_statuses() {
    let e401 = classify_status(Verb::Get, 401, "denied".to_string()).unwrap_err();
    assert_eq!(e401, ApiError::AuthenticationError);

    let e403 = classify_status(Verb::Get, 403, "denied".to_string()).unwrap_err();
    assert_eq!(e403, ApiError::AuthenticationError);
}

#[test]
fn test_classify_rate_limit_status() {
    let e = classify_status(Verb::Post, 429, "slow down".to_string()).unwrap_err();
    assert_eq!(e, ApiError::RateLimitError);
}

#[test]
fn test_classify_not_found_status() {
    let e = classify_status(Verb::Get, 404, "Trace nonexistent not found".to_string()).unwrap_err();
    assert_eq!(e, ApiError::NotFoundError("Trace nonexistent not found".to_string()));
}

#[test]
fn test_classify_other_status() {
    let e = classify_status(Verb::Get, 500, "Internal Server Error".to_string()).unwrap_err();
    assert_eq!(
        e,
        ApiError::ApiError {
            status: 500,
            message: "Internal Server Error".to_string(),
        }
    );
}

#[test]
fn test_classify_success_statuses() {
    assert_eq!(
        classify_status(Verb::Get, 200, "body".to_string()).unwrap(),
        "body"
    );
    assert_eq!(
        classify_status(Verb::Post, 201, "created".to_string()).unwrap(),
        "created"
    );
    assert_eq!(
        classify_status(Verb::Patch, 200, "patched".to_string()).unwrap(),
        "patched"
    );
    assert_eq!(classify_status(Verb::Delete, 204, "".to_string()).unwrap(), "");
    assert_eq!(classify_status(Verb::Delete, 200, "".to_string()).unwrap(), "");
    // 201 is no success for a GET
    assert!(classify_status(Verb::Get, 201, "odd".to_string()).is_err());
}

#[test]
fn test_classify_transport_failure() {
    assert_eq!(
        classify_transport_failure(true, "deadline elapsed".to_string()),
        ApiError::TimeoutError
    );
    assert_eq!(
        classify_transport_failure(false, "connection refused".to_string()),
        ApiError::NetworkError("connection refused".to_string())
    );
}
