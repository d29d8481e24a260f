use backend::config::LlmConfig;
use backend::models::defaults::default_embedding_model;
use backend::models::error::AppError;
use backend::models::llm::{
    default_max_tokens, default_text_model, validate_generation_fields, LlmProvider, LlmUsage,
};
use backend::models::vectordb::default_limit;
use backend::services::common::require_api_key;

#[test]
fn test_llm_usage_completion() {
    let usage = LlmUsage::completion(100, 50);
    assert_eq!(usage.prompt_tokens, 100);
    assert_eq!(usage.completion_tokens, Some(50));
    assert_eq!(usage.total_tokens, 150);
}

#[test]
fn test_llm_usage_embedding() {
    let usage = LlmUsage::embedding(100);
    assert_eq!(usage.prompt_tokens, 100);
    assert_eq!(usage.completion_tokens, None);
    assert_eq!(usage.total_tokens, 100);
}

#[test]
fn test_provider_display() {
    assert_eq!(LlmProvider::OpenAI.to_string(), "openai");
    assert_eq!(LlmProvider::Anthropic.to_string(), "anthropic");
}

#[test]
fn test_text_generation_request_validation_empty_prompt() {
    let errors = validate_generation_fields("", "gpt-4o-mini", 100);
    assert!(!errors.is_empty());
}

#[test]
fn test_text_generation_request_validation_invalid_max_tokens() {
    let errors = validate_generation_fields("test", "gpt-4o-mini", 5000);
    assert!(!errors.is_empty());
}

#[test]
fn valid_generation_fields_pass() {
    assert!(validate_generation_fields("test", "gpt-4o-mini", 4000).is_empty());
    assert!(validate_generation_fields("test", "gpt-4o-mini", 1).is_empty());
    assert!(!validate_generation_fields("test", "gpt-4o-mini", 0).is_empty());
    assert!(!validate_generation_fields("test", "  ", 10).is_empty());
}

#[test]
fn request_defaults() {
    assert_eq!(default_text_model(), "gpt-4o-mini");
    assert_eq!(default_max_tokens(), 500);
    assert_eq!(default_embedding_model(), "text-embedding-3-small");
    assert_eq!(default_limit(), 10);
}

#[test]
fn require_api_key_returns_key_when_present() {
    let key = "sk-test".to_string();
    assert_eq!(require_api_key(Some(&key), "TEST_KEY").unwrap(), "sk-test");
}

#[test]
fn require_api_key_errors_when_none() {
    let result = require_api_key(None, "TEST_KEY");
    assert!(result.is_err());
    assert!(result.unwrap_err().to_string().contains("TEST_KEY"));
}

#[test]
fn require_api_key_errors_when_empty() {
    let empty = String::new();
    assert!(require_api_key(Some(&empty), "KEY").is_err());
}

#[test]
fn missing_key_is_a_configuration_error() {
    let err = require_api_key(None, "OPENAI_API_KEY").unwrap_err();
    assert!(matches!(err, AppError::Configuration(ref m) if m == "OPENAI_API_KEY not configured"));
    assert_eq!(err.to_string(), "Configuration error: OPENAI_API_KEY not configured");
    assert_eq!(err.status_code(), 500);
}

#[test]
fn llm_config_blank_key_counts_as_missing() {
    let llm = LlmConfig {
        openai_api_key: Some(" ".to_string()),
        anthropic_api_key: None,
    };
    assert!(!llm.has_openai());
}
