use backend::app::{cors_policy, health_report, invalid_bind_address, AllowedOrigins};
use backend::config::{CorsConfig, Environment, ServerConfig};
use backend::http_auth::{bearer_header_value, bearer_token_from_headers, bearer_token_from_value};
use backend::models::error::{AppError, AppRunError};
use backend::utils::extract_bearer_token;

#[test]
fn test_bearer_token_from_value() {
    assert_eq!(
        bearer_token_from_value("Bearer test_token").expect("bearer token"),
        "test_token"
    );
    assert_eq!(
        bearer_token_from_value("bearer test_token").expect("bearer token"),
        "test_token"
    );
    assert!(bearer_token_from_value("Basic test").is_err());
    assert!(bearer_token_from_value("no_prefix").is_err());
}

#[test]
fn bearer_token_extracted_with_standard_prefix() {
    assert_eq!(extract_bearer_token(Some("Bearer my_token")).unwrap(), "my_token");
}

#[test]
fn bearer_token_extracted_with_lowercase_prefix() {
    assert_eq!(extract_bearer_token(Some("bearer my_token")).unwrap(), "my_token");
}

#[test]
fn bearer_token_errors_when_header_missing() {
    let err = extract_bearer_token(None).unwrap_err();
    assert!(matches!(err, AppError::Unauthorized(_)));
}

#[test]
fn bearer_token_errors_with_wrong_scheme() {
    assert!(extract_bearer_token(Some("Basic abc")).is_err());
}

#[test]
fn bearer_token_errors_with_no_prefix() {
    assert!(extract_bearer_token(Some("raw_token")).is_err());
}

#[test]
fn bearer_token_allows_empty_token_value() {
    assert_eq!(extract_bearer_token(Some("Bearer ")).unwrap(), "");
}

#[test]
fn bearer_header_reads_back() {
    let h = bearer_header_value("abc");
    assert_eq!(h, "Bearer abc");
    assert_eq!(bearer_token_from_value(&h).unwrap(), "abc");
    assert_eq!(bearer_token_from_headers(Some(&h)).unwrap(), "abc");
    assert!(matches!(bearer_token_from_headers(None), Err(AppError::Unauthorized(_))));
}

#[test]
fn cors_allows_valid_configured_origins_with_credentials() {
    let cors = CorsConfig {
        origins: vec!["http://a".to_string(), "bad\u{7f}".to_string()],
    };
    let p = cors_policy(&cors, Environment::Production);
    assert!(p.allow_credentials);
    match p.allowed {
        AllowedOrigins::List(l) => assert_eq!(l, vec!["http://a".to_string()]),
        _ => panic!("expected a list"),
    }
    assert_eq!(p.methods, vec!["GET", "POST", "PUT", "DELETE", "OPTIONS", "PATCH"]);
    assert_eq!(p.headers, vec!["content-type", "authorization", "accept", "origin"]);
    assert_eq!(p.max_age_secs, 600);
}

#[test]
fn cors_without_origins_depends_on_environment() {
    let cors = CorsConfig { origins: vec![] };
    let dev = cors_policy(&cors, Environment::Development);
    assert!(matches!(dev.allowed, AllowedOrigins::Any));
    assert!(!dev.allow_credentials);
    let prod = cors_policy(&cors, Environment::Production);
    assert!(matches!(prod.allowed, AllowedOrigins::Nothing));
    assert!(!prod.allow_credentials);
}

#[test]
fn health_report_is_online() {
    let h = health_report(Environment::Staging, "0.1.0");
    assert_eq!(h.status, "online");
    assert_eq!(h.environment, "staging");
    assert_eq!(h.version, "0.1.0");
}

#[test]
fn bind_address_and_its_error() {
    assert_eq!(ServerConfig::default().bind_address(), "0.0.0.0:8000");
    let e = invalid_bind_address("x:1", "bad");
    assert_eq!(
        e.to_string(),
        "Server bind or accept error: Invalid bind address 'x:1': bad"
    );
    assert!(matches!(e, AppRunError::Io(_)));
}

#[test]
fn app_error_responses() {
    let e = AppError::NotFound("doc".to_string());
    assert_eq!(e.status_code(), 404);
    assert_eq!(e.to_string(), "Resource not found: doc");
    let r = e.to_error_response();
    assert_eq!(r.status_code, 404);
}
