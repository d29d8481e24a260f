use backend::config::LlmConfig;
use backend::domain::auth::AuthDomainError;
use backend::infrastructure::supabase::auth_gateway::{
    provider_exchange_outcome, token_exchange_url, user_lookup_outcome, user_lookup_url,
};
use backend::infrastructure::supabase::models::{SupabaseUserMetadata, SupabaseUserRecord};
use backend::models::error::{AppError, AppRunError, HttpFailure};
use backend::models::llm::LlmProvider;
use backend::services::llm::embedding::{
    AnthropicEmbeddingService, EmbeddingReplySummary, EmbeddingServiceChoice,
    EmbeddingServiceFactory, OpenAiEmbeddingService,
};
use backend::services::llm::text_generation::{
    AnthropicService, CompletionBody, LlmServiceChoice, LlmServiceFactory, OpenAiService,
};
use backend::upstream::UpstreamReply;

fn external<T>(r: Result<T, AppError>) -> String {
    match r {
        Err(AppError::ExternalService(m)) => m,
        Err(_) => panic!("another kind of error"),
        Ok(_) => panic!("expected an error"),
    }
}

fn configuration<T>(r: Result<T, AppError>) -> String {
    match r {
        Err(AppError::Configuration(m)) => m,
        Err(_) => panic!("another kind of error"),
        Ok(_) => panic!("expected an error"),
    }
}

fn keys(openai: Option<&str>, anthropic: Option<&str>) -> LlmConfig {
    LlmConfig {
        openai_api_key: openai.map(String::from),
        anthropic_api_key: anthropic.map(String::from),
    }
}

#[test]
fn text_service_needs_a_key() {
    match LlmServiceFactory::get_service(LlmProvider::OpenAI, &keys(Some("k"), None)) {
        Ok(LlmServiceChoice::OpenAi { api_key }) => assert_eq!(api_key, "k"),
        _ => panic!("expected the OpenAI service"),
    }
    assert_eq!(
        configuration(LlmServiceFactory::get_service(LlmProvider::Anthropic, &keys(Some("k"), Some("")))),
        "Anthropic API key not configured. Please set ANTHROPIC_API_KEY."
    );
    assert_eq!(
        configuration(LlmServiceFactory::get_service(LlmProvider::OpenAI, &keys(None, None))),
        "OpenAI API key not configured. Please set OPENAI_API_KEY."
    );
}

#[test]
fn generation_replies() {
    let body = CompletionBody {
        texts: vec!["first".into(), "second".into()],
        input_tokens: 3,
        output_tokens: 4,
    };
    let r = OpenAiService::generation_outcome(UpstreamReply::Parsed(body), "m")
        .ok()
        .expect("response");
    assert_eq!(r.text, "first");
    assert_eq!(r.model, "m");
    assert_eq!(r.usage.total_tokens, 7);
    let empty = CompletionBody { texts: vec![], input_tokens: 0, output_tokens: 0 };
    assert_eq!(
        external(AnthropicService::generation_outcome(UpstreamReply::Parsed(empty), "m")),
        "No response from Anthropic"
    );
    assert_eq!(
        external(OpenAiService::generation_outcome(
            UpstreamReply::Rejected(429, Some(Ok("slow down".into()))),
            "m"
        )),
        "OpenAI API error (status 429 Too Many Requests): slow down"
    );
    assert_eq!(
        external(OpenAiService::generation_outcome(UpstreamReply::SendFailed("dns".into()), "m")),
        "OpenAI request failed: dns"
    );
    assert_eq!(
        external(AnthropicService::generation_outcome(UpstreamReply::Unparsable("eof".into()), "m")),
        "Failed to parse Anthropic response: eof"
    );
}

#[test]
fn embedding_choices_and_replies() {
    assert!(matches!(
        EmbeddingServiceFactory::create(LlmProvider::Anthropic, &keys(None, Some("a"))),
        Ok(EmbeddingServiceChoice::Anthropic)
    ));
    assert_eq!(
        configuration(EmbeddingServiceFactory::create(LlmProvider::OpenAI, &keys(None, Some("a")))),
        "OPENAI_API_KEY not configured"
    );
    assert_eq!(
        configuration(AnthropicEmbeddingService.create_embedding("t", "m")),
        "Anthropic does not offer an embeddings API. Use provider 'openai'."
    );
    let meta = OpenAiEmbeddingService::embedding_outcome(
        Ok(EmbeddingReplySummary { has_embedding: true, prompt_tokens: 9 }),
        "m",
    )
    .ok()
    .expect("meta");
    assert_eq!(meta.model, "m");
    assert_eq!(meta.usage.total_tokens, 9);
    assert_eq!(meta.usage.completion_tokens, None);
    assert_eq!(
        external(OpenAiEmbeddingService::embedding_outcome(
            Ok(EmbeddingReplySummary { has_embedding: false, prompt_tokens: 9 }),
            "m"
        )),
        "No embedding in response"
    );
    assert_eq!(
        external(OpenAiEmbeddingService::embedding_outcome(Err("quota".into()), "m")),
        "OpenAI embedding error: quota"
    );
}

fn record() -> SupabaseUserRecord {
    SupabaseUserRecord {
        id: "u".into(),
        email: Some("e@x".into()),
        user_metadata: SupabaseUserMetadata::default(),
    }
}

#[test]
fn gateway_urls_and_replies() {
    assert_eq!(user_lookup_url("https://x"), "https://x/auth/v1/user");
    assert_eq!(
        token_exchange_url("https://x"),
        "https://x/auth/v1/token?grant_type=id_token"
    );
    let user = user_lookup_outcome(UpstreamReply::Parsed(record())).expect("user");
    assert_eq!(user.id, "u");
    assert!(matches!(
        user_lookup_outcome(UpstreamReply::Rejected(401, None)),
        Err(AuthDomainError::Unauthorized(ref m)) if m == "Invalid bearer token"
    ));
    assert!(matches!(
        user_lookup_outcome(UpstreamReply::SendFailed("x".into())),
        Err(AuthDomainError::ExternalService(ref m)) if m == "Supabase request failed: x"
    ));
    assert!(matches!(
        provider_exchange_outcome(UpstreamReply::Rejected(400, None), "google"),
        Err(AuthDomainError::BadRequest(ref m)) if m == "Failed to authenticate with google (status 400 Bad Request)"
    ));
    assert_eq!(
        provider_exchange_outcome(UpstreamReply::Parsed("tok".into()), "google").expect("token"),
        "tok"
    );
}

#[test]
fn http_failures_become_external_errors() {
    let timeout = HttpFailure {
        timeout: true,
        connect: false,
        status: None,
        url: None,
        description: "slow".into(),
    };
    assert!(matches!(AppError::from_http_failure(&timeout), AppError::ExternalService(ref m) if m == "HTTP client timeout: slow"));
    let status = HttpFailure {
        timeout: false,
        connect: false,
        status: Some(404),
        url: Some("https://x/y".into()),
        description: "gone".into(),
    };
    assert!(matches!(
        AppError::from_http_failure(&status),
        AppError::ExternalService(ref m) if m == "HTTP error (status 404 Not Found): gone; url=https://x/y"
    ));
    assert!(matches!(AppError::from_json_error("eof"), AppError::Internal(ref m) if m == "JSON error: eof"));
}

#[test]
fn every_error_kind_has_its_status() {
    let cases = [
        (AppError::Unauthorized("a".into()), 401, "Authentication failed: a"),
        (AppError::Forbidden("a".into()), 403, "Access denied: a"),
        (AppError::NotFound("a".into()), 404, "Resource not found: a"),
        (AppError::BadRequest("a".into()), 400, "Invalid request: a"),
        (AppError::Validation("a".into()), 400, "Validation error: a"),
        (AppError::ExternalService("a".into()), 502, "External service error: a"),
        (AppError::Configuration("a".into()), 500, "Configuration error: a"),
        (AppError::Internal("a".into()), 500, "Internal server error: a"),
    ];
    for (e, status, message) in cases {
        assert_eq!(e.status_code(), status);
        assert_eq!(e.to_string(), message);
        let body = e.to_error_response();
        assert_eq!(body.error, message);
        assert!(body.details.is_none());
    }
    let e = AppRunError::QdrantInit(AppError::Configuration("x".into()));
    assert_eq!(
        e.to_string(),
        "Failed to initialize Qdrant: Configuration error: x"
    );
}
