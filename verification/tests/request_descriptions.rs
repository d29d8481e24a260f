use backend::infrastructure::supabase::auth_gateway::{
    token_exchange_body, token_exchange_headers, user_lookup_headers,
};
use backend::models::error::{AppError, LogLevel};
use backend::services::llm::text_generation::{AnthropicService, OpenAiService};
use backend::services::supabase::database::SupabaseDatabaseService;
use backend::services::supabase::storage::SupabaseStorageService;

fn pairs(v: &[(&str, &str)]) -> Vec<(String, String)> {
    v.iter().map(|(a, b)| (a.to_string(), b.to_string())).collect()
}

#[test]
fn openai_chat_request() {
    let r = OpenAiService::chat_request("sk-test", "gpt-4o-mini", "hi", 10);
    assert_eq!(r.url, "https://api.openai.com/v1/chat/completions");
    assert_eq!(
        r.headers,
        pairs(&[("Authorization", "Bearer sk-test"), ("Content-Type", "application/json")])
    );
    assert_eq!(r.model, "gpt-4o-mini");
    assert_eq!(r.messages, pairs(&[("user", "hi")]));
    assert_eq!(r.max_tokens, 10);
}

#[test]
fn anthropic_chat_request() {
    let r = AnthropicService::chat_request("ak", "model-a", "hi", 10);
    assert_eq!(r.url, "https://api.anthropic.com/v1/messages");
    assert_eq!(
        r.headers,
        pairs(&[
            ("x-api-key", "ak"),
            ("anthropic-version", "2023-06-01"),
            ("Content-Type", "application/json")
        ])
    );
    assert_eq!(r.messages, pairs(&[("user", "hi")]));
}

#[test]
fn storage_request_bodies_and_headers() {
    let s = SupabaseStorageService::new("https://x", "key", "my \"docs\"");
    assert_eq!(s.create_bucket_body(), "{\"name\":\"my \\\"docs\\\"\",\"public\":false}");
    let parsed: serde_json::Value = serde_json::from_str(&s.create_bucket_body()).unwrap();
    assert_eq!(parsed["name"], "my \"docs\"");
    assert_eq!(parsed["public"], false);
    assert_eq!(SupabaseStorageService::list_body(None), "{\"prefix\":\"\"}");
    assert_eq!(SupabaseStorageService::list_body(Some("a/b")), "{\"prefix\":\"a/b\"}");
    assert_eq!(
        s.auth_headers(),
        pairs(&[("apikey", "key"), ("Authorization", "Bearer key")])
    );
    assert_eq!(
        SupabaseDatabaseService::auth_headers("k"),
        pairs(&[("apikey", "k"), ("Authorization", "Bearer k")])
    );
}

#[test]
fn auth_request_bodies_and_headers() {
    assert_eq!(
        token_exchange_body("google", "t\"1"),
        "{\"provider\":\"google\",\"id_token\":\"t\\\"1\"}"
    );
    assert_eq!(
        token_exchange_headers("k"),
        pairs(&[("apikey", "k"), ("Content-Type", "application/json")])
    );
    assert_eq!(
        user_lookup_headers("k", "tok"),
        pairs(&[("Authorization", "Bearer tok"), ("apikey", "k")])
    );
}

#[test]
fn errors_log_by_status_class() {
    assert_eq!(AppError::Unauthorized("x".into()).log_level(), LogLevel::Warn);
    assert_eq!(AppError::Validation("x".into()).log_level(), LogLevel::Warn);
    assert_eq!(AppError::ExternalService("x".into()).log_level(), LogLevel::Error);
    assert_eq!(AppError::Internal("x".into()).log_level(), LogLevel::Error);
}

#[test]
fn json_text_escapes_controls_and_quotes() {
    assert_eq!(
        token_exchange_body("a\nb", "\u{1}\\"),
        "{\"provider\":\"a\\nb\",\"id_token\":\"\\u0001\\\\\"}"
    );
}

#[test]
fn percent_encoding_uses_utf8_bytes_and_uppercase_hex() {
    let s = SupabaseStorageService::new("https://x", "key", "b/k");
    assert_eq!(
        s.delete_url("é/a~b.c_d-e").ok().expect("url"),
        "https://x/storage/v1/object/b%2Fk/%C3%A9/a~b.c_d-e"
    );
}
