//! Embeddings: which service a provider gets, and what the OpenAI reply
//! means (Anthropic has no embeddings API).

use vstd::prelude::*;

use crate::config::LlmConfig;
use crate::models::error::{AppError, AppErrorKind};
use crate::models::llm::{LlmProvider, LlmUsage};
use crate::services::common::require_api_key;
use crate::services::llm::text_generation::key_present;
use crate::text::{concat2, owned};

verus! {

/// The embedding service to use for a request.
pub enum EmbeddingServiceChoice {
    OpenAi { api_key: String },
    Anthropic,
}

/// What an embedding answer carries besides the vector: the model and the usage.
pub struct EmbeddingMeta {
    pub model: String,
    pub usage: LlmUsage,
}

/// What the SDK's embedding reply holds that the service reads: whether a
/// first embedding is present, and the prompt token count.
pub struct EmbeddingReplySummary {
    pub has_embedding: bool,
    pub prompt_tokens: u32,
}

/// OpenAI embedding service (SDK-backed).
pub struct OpenAiEmbeddingService;

impl OpenAiEmbeddingService {
    /// The answer from the SDK's reply: the requested model with
    /// embedding usage; an SDK error or a reply without embedding is an
    /// upstream error.
    pub fn embedding_outcome(reply: Result<EmbeddingReplySummary, String>, model: &str) -> (r:
        Result<EmbeddingMeta, AppError>)
        ensures
            match reply {
                Err(e) => r matches Err(err) && err.is(
                    AppErrorKind::ExternalService,
                    "OpenAI embedding error: "@ + e@,
                ),
                Ok(s) => if s.has_embedding {
                    r matches Ok(m) && m.model@ == model@ && m.usage.prompt_tokens
                        == s.prompt_tokens && m.usage.completion_tokens is None
                        && m.usage.total_tokens == s.prompt_tokens
                } else {
                    r matches Err(err) && err.is(
                        AppErrorKind::ExternalService,
                        "No embedding in response"@,
                    )
                },
            },
    {
        match reply {
            Err(e) => Err(AppError::ExternalService(concat2("OpenAI embedding error: ", e.as_str()))),
            Ok(s) => {
                if !s.has_embedding {
                    return Err(AppError::ExternalService(owned("No embedding in response")));
                }
                Ok(EmbeddingMeta { model: owned(model), usage: LlmUsage::embedding(s.prompt_tokens) })
            },
        }
    }

    /// The error for an embedding request the SDK could not build.
    pub fn request_build_error(description: &str) -> (r: AppError)
        ensures
            r.is(AppErrorKind::BadRequest, "Failed to build embedding request: "@ + description@),
    {
        AppError::BadRequest(concat2("Failed to build embedding request: ", description))
    }
}

/// Anthropic embedding stub: the vendor offers no embeddings API.
pub struct AnthropicEmbeddingService;

impl AnthropicEmbeddingService {
    /// Always a configuration error pointing at the OpenAI provider.
    pub fn create_embedding(&self, text: &str, model: &str) -> (r: Result<EmbeddingMeta, AppError>)
        ensures
            r matches Err(err) && err.is(
                AppErrorKind::Configuration,
                "Anthropic does not offer an embeddings API. Use provider 'openai'."@,
            ),
    {
        Err(
            AppError::Configuration(
                owned("Anthropic does not offer an embeddings API. Use provider 'openai'."),
            ),
        )
    }
}

/// Creates the appropriate embedding service for a provider.
pub struct EmbeddingServiceFactory;

impl EmbeddingServiceFactory {
    /// The service for `provider`: OpenAI needs its key; Anthropic needs its
    /// key too, though its service only answers with an error.
    pub fn create(provider: LlmProvider, llm: &LlmConfig) -> (r: Result<
        EmbeddingServiceChoice,
        AppError,
    >)
        ensures
            provider == LlmProvider::OpenAI ==> match r {
                Ok(EmbeddingServiceChoice::OpenAi { api_key }) => key_present(llm.openai_api_key)
                    && api_key@ == llm.openai_api_key->0@,
                Ok(_) => false,
                Err(e) => !key_present(llm.openai_api_key) && e.is(
                    AppErrorKind::Configuration,
                    "OPENAI_API_KEY"@ + " not configured"@,
                ),
            },
            provider == LlmProvider::Anthropic ==> match r {
                Ok(EmbeddingServiceChoice::Anthropic) => key_present(llm.anthropic_api_key),
                Ok(_) => false,
                Err(e) => !key_present(llm.anthropic_api_key) && e.is(
                    AppErrorKind::Configuration,
                    "ANTHROPIC_API_KEY"@ + " not configured"@,
                ),
            },
    {
        match provider {
            LlmProvider::OpenAI => {
                let key = require_api_key(llm.openai_api_key.as_ref(), "OPENAI_API_KEY")?;
                Ok(EmbeddingServiceChoice::OpenAi { api_key: key })
            },
            LlmProvider::Anthropic => {
                require_api_key(llm.anthropic_api_key.as_ref(), "ANTHROPIC_API_KEY")?;
                Ok(EmbeddingServiceChoice::Anthropic)
            },
        }
    }
}

} // verus!
