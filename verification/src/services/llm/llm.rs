//! Text generation through the OpenAI SDK and Anthropic's HTTP API: the
//! factory's choice of service and what each provider reply means.

use vstd::prelude::*;

use crate::config::LlmConfig;
use crate::http_status::{status_text, status_text_spec};
use crate::models::error::{AppError, AppErrorKind};
use crate::models::llm::{LlmProvider, LlmUsage, TextGenerationResponse};
use crate::services::common::require_api_key;
use crate::services::llm::text_generation::{CompletionBody, LlmServiceChoice, key_present};
use crate::text::{concat2, concat3, concat4, owned};
use crate::upstream::{body_or_empty, body_text_or_empty, UpstreamReply};

verus! {

/// Factory for the SDK-backed text-generation services.
pub struct LlmServiceFactory;

impl LlmServiceFactory {
    /// The service for `provider`; a missing or empty key is a configuration
    /// error naming the variable to set.
    pub fn create(provider: LlmProvider, llm: &LlmConfig) -> (r: Result<LlmServiceChoice, AppError>)
        ensures
            provider == LlmProvider::OpenAI ==> match r {
                Ok(LlmServiceChoice::OpenAi { api_key }) => key_present(llm.openai_api_key)
                    && api_key@ == llm.openai_api_key->0@,
                Ok(_) => false,
                Err(e) => !key_present(llm.openai_api_key) && e.is(
                    AppErrorKind::Configuration,
                    "OPENAI_API_KEY"@ + " not configured"@,
                ),
            },
            provider == LlmProvider::Anthropic ==> match r {
                Ok(LlmServiceChoice::Anthropic { api_key }) => key_present(llm.anthropic_api_key)
                    && api_key@ == llm.anthropic_api_key->0@,
                Ok(_) => false,
                Err(e) => !key_present(llm.anthropic_api_key) && e.is(
                    AppErrorKind::Configuration,
                    "ANTHROPIC_API_KEY"@ + " not configured"@,
                ),
            },
    {
        match provider {
            LlmProvider::OpenAI => {
                let key = require_api_key(llm.openai_api_key.as_ref(), "OPENAI_API_KEY")?;
                Ok(LlmServiceChoice::OpenAi { api_key: key })
            },
            LlmProvider::Anthropic => {
                let key = require_api_key(llm.anthropic_api_key.as_ref(), "ANTHROPIC_API_KEY")?;
                Ok(LlmServiceChoice::Anthropic { api_key: key })
            },
        }
    }
}

/// The error for a request that the SDK could not build, naming the part
/// (`message` or `request`).
pub fn request_build_error(part: &str, description: &str) -> (r: AppError)
    ensures
        r.is(AppErrorKind::BadRequest, "Failed to build "@ + part@ + ": "@ + description@),
{
    AppError::BadRequest(concat4("Failed to build ", part, ": ", description))
}

/// What the SDK's chat completion returns that the service reads: the first
/// choice (with its content, which may be absent), the usage counts if
/// reported, and the model that answered.
pub struct SdkCompletion {
    pub first_choice: Option<Option<String>>,
    pub usage: Option<(u32, u32)>,
    pub model: String,
}

/// OpenAI text-generation service (SDK-backed).
pub struct OpenAiService;

impl OpenAiService {
    /// The answer from the SDK's reply: the first choice's content (empty if
    /// it has none) under the model that answered, with the reported usage or
    /// zero usage; an SDK error or no choice is an upstream error.
    pub fn generation_outcome(reply: Result<SdkCompletion, String>) -> (r: Result<
        TextGenerationResponse,
        AppError,
    >)
        requires
            reply matches Ok(c) ==> (c.usage matches Some(u) ==> u.0 + u.1 <= u32::MAX),
        ensures
            match reply {
                Err(e) => r matches Err(err) && err.is(
                    AppErrorKind::ExternalService,
                    "OpenAI API error: "@ + e@,
                ),
                Ok(c) => match c.first_choice {
                    None => r matches Err(err) && err.is(
                        AppErrorKind::ExternalService,
                        "No response from OpenAI"@,
                    ),
                    Some(content) => r matches Ok(resp) && resp.text@ == match content {
                        Some(t) => t@,
                        None => Seq::<char>::empty(),
                    } && resp.model@ == c.model@ && match c.usage {
                        Some(u) => resp.usage.prompt_tokens == u.0 && resp.usage.completion_tokens
                            == Some(u.1) && resp.usage.total_tokens == u.0 + u.1,
                        None => resp.usage.prompt_tokens == 0 && resp.usage.completion_tokens
                            == Some(0u32) && resp.usage.total_tokens == 0,
                    },
                },
            },
    {
        match reply {
            Err(e) => Err(AppError::ExternalService(concat2("OpenAI API error: ", e.as_str()))),
            Ok(c) => match c.first_choice {
                None => Err(AppError::ExternalService(owned("No response from OpenAI"))),
                Some(content) => {
                    let text = match content {
                        Some(t) => t,
                        None => String::new(),
                    };
                    let usage = match c.usage {
                        Some((p, q)) => LlmUsage::completion(p, q),
                        None => LlmUsage::completion(0, 0),
                    };
                    Ok(TextGenerationResponse { text, model: c.model, usage })
                },
            },
        }
    }
}

/// Anthropic text-generation service.
pub struct AnthropicService;

impl AnthropicService {
    /// The answer from Anthropic's messages reply: the first content block
    /// under the requested model; a rejection reports the status and the body
    /// (empty if unreadable).
    pub fn generation_outcome(reply: UpstreamReply<CompletionBody>, model: &str) -> (r: Result<
        TextGenerationResponse,
        AppError,
    >)
        requires
            reply.wf(),
            reply matches UpstreamReply::Parsed(b) ==> b.input_tokens + b.output_tokens <= u32::MAX,
        ensures
            match reply {
                UpstreamReply::SendFailed(e) => r matches Err(err) && err.is(
                    AppErrorKind::ExternalService,
                    "Anthropic request failed: "@ + e@,
                ),
                UpstreamReply::Rejected(status, body) => r matches Err(err) && err.is(
                    AppErrorKind::ExternalService,
                    "Anthropic API error ("@ + status_text_spec(status) + "): "@ + body_or_empty(
                        body,
                    ),
                ),
                UpstreamReply::Unparsable(e) => r matches Err(err) && err.is(
                    AppErrorKind::ExternalService,
                    "Anthropic parse error: "@ + e@,
                ),
                UpstreamReply::Parsed(b) => if b.texts@.len() == 0 {
                    r matches Err(err) && err.is(
                        AppErrorKind::ExternalService,
                        "No response from Anthropic"@,
                    )
                } else {
                    r matches Ok(resp) && resp.text@ == b.texts@[0]@ && resp.model@ == model@
                        && resp.usage.prompt_tokens == b.input_tokens
                        && resp.usage.completion_tokens == Some(b.output_tokens)
                        && resp.usage.total_tokens == b.input_tokens + b.output_tokens
                },
            },
    {
        match reply {
            UpstreamReply::SendFailed(e) => Err(
                AppError::ExternalService(concat2("Anthropic request failed: ", e.as_str())),
            ),
            UpstreamReply::Rejected(status, body) => {
                let text = status_text(status);
                let detail = body_text_or_empty(&body);
                Err(
                    AppError::ExternalService(
                        concat4("Anthropic API error (", text.as_str(), "): ", detail.as_str()),
                    ),
                )
            },
            UpstreamReply::Unparsable(e) => Err(
                AppError::ExternalService(concat2("Anthropic parse error: ", e.as_str())),
            ),
            UpstreamReply::Parsed(b) => {
                if b.texts.len() == 0 {
                    return Err(AppError::ExternalService(owned("No response from Anthropic")));
                }
                Ok(
                    TextGenerationResponse {
                        text: owned(b.texts[0].as_str()),
                        model: owned(model),
                        usage: LlmUsage::completion(b.input_tokens, b.output_tokens),
                    },
                )
            },
        }
    }
}

} // verus!
