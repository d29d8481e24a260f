//! Text generation with OpenAI and Anthropic over their HTTP APIs: which
//! credentials a provider needs, and what each reply of the provider means.

use vstd::prelude::*;

use crate::config::LlmConfig;
use crate::http_status::{status_text, status_text_spec};
use crate::models::error::{AppError, AppErrorKind};
use crate::models::llm::{LlmProvider, LlmUsage, TextGenerationResponse};
use crate::text::{concat2, concat3, concat4, owned};
use crate::string_map::pairs_of;
use crate::upstream::UpstreamReply;

verus! {

/// The text-generation service to use for a request, with its API key.
pub enum LlmServiceChoice {
    OpenAi { api_key: String },
    Anthropic { api_key: String },
}

/// A key slot that holds a non-empty key.
pub open spec fn key_present(slot: Option<String>) -> bool {
    slot matches Some(k) && k@.len() > 0
}

/// Factory for text-generation services.
pub struct LlmServiceFactory;

impl LlmServiceFactory {
    /// The service for `provider`, given the configured keys; a missing or
    /// empty key is a configuration error telling which variable to set.
    pub fn get_service(provider: LlmProvider, llm: &LlmConfig) -> (r: Result<
        LlmServiceChoice,
        AppError,
    >)
        ensures
            provider == LlmProvider::OpenAI ==> match r {
                Ok(LlmServiceChoice::OpenAi { api_key }) => key_present(llm.openai_api_key)
                    && api_key@ == llm.openai_api_key->0@,
                Ok(_) => false,
                Err(e) => !key_present(llm.openai_api_key) && e.is(
                    AppErrorKind::Configuration,
                    "OpenAI API key not configured. Please set OPENAI_API_KEY."@,
                ),
            },
            provider == LlmProvider::Anthropic ==> match r {
                Ok(LlmServiceChoice::Anthropic { api_key }) => key_present(llm.anthropic_api_key)
                    && api_key@ == llm.anthropic_api_key->0@,
                Ok(_) => false,
                Err(e) => !key_present(llm.anthropic_api_key) && e.is(
                    AppErrorKind::Configuration,
                    "Anthropic API key not configured. Please set ANTHROPIC_API_KEY."@,
                ),
            },
    {
        match provider {
            LlmProvider::OpenAI => match &llm.openai_api_key {
                Some(k) if !k.as_str().is_empty() => Ok(
                    LlmServiceChoice::OpenAi { api_key: owned(k.as_str()) },
                ),
                _ => Err(
                    AppError::Configuration(
                        owned("OpenAI API key not configured. Please set OPENAI_API_KEY."),
                    ),
                ),
            },
            LlmProvider::Anthropic => match &llm.anthropic_api_key {
                Some(k) if !k.as_str().is_empty() => Ok(
                    LlmServiceChoice::Anthropic { api_key: owned(k.as_str()) },
                ),
                _ => Err(
                    AppError::Configuration(
                        owned("Anthropic API key not configured. Please set ANTHROPIC_API_KEY."),
                    ),
                ),
            },
        }
    }
}

/// What a chat-completion reply carries: the text of each choice (OpenAI)
/// or content block (Anthropic), in order, and the token counts.
pub struct CompletionBody {
    pub texts: Vec<String>,
    pub input_tokens: u32,
    pub output_tokens: u32,
}

/// The detail of an error for a rejected reply whose body was read with
/// `read_failed_response_text`: the body, or why it could not be read.
pub open spec fn rejection_detail(
    vendor: Seq<char>,
    status: u16,
    body: Option<Result<String, String>>,
) -> (AppErrorKind, Seq<char>) {
    match body {
        Some(Ok(b)) => (
            AppErrorKind::ExternalService,
            vendor + " API error (status "@ + status_text_spec(status) + "): "@ + b@,
        ),
        Some(Err(e)) => (
            AppErrorKind::ExternalService,
            "HTTP error response (status "@ + status_text_spec(status) + "): failed to read body: "@
                + e@,
        ),
        None => (
            AppErrorKind::ExternalService,
            vendor + " API error (status "@ + status_text_spec(status) + "): "@,
        ),
    }
}

/// The answer to a text-generation request given the provider's reply:
/// the first text with the requested model and the token usage, or the
/// error that names the vendor.
pub open spec fn generation_outcome_ok(
    reply: UpstreamReply<CompletionBody>,
    model: Seq<char>,
    r: Result<TextGenerationResponse, AppError>,
) -> bool {
    match reply {
        UpstreamReply::Parsed(body) => body.texts@.len() > 0 && (r matches Ok(resp) && resp.text@
            == body.texts@[0]@ && resp.model@ == model && resp.usage.prompt_tokens
            == body.input_tokens && resp.usage.completion_tokens == Some(body.output_tokens)
            && resp.usage.total_tokens == body.input_tokens + body.output_tokens),
        _ => false,
    }
}

/// A successful answer reports the provider's own token counts: the
/// prompt tokens are the reply's input tokens, the completion tokens its
/// output tokens, and the total their sum.
pub proof fn generation_reports_reply_usage(
    reply: UpstreamReply<CompletionBody>,
    model: Seq<char>,
    r: Result<TextGenerationResponse, AppError>,
)
    requires
        generation_outcome_ok(reply, model, r),
    ensures
        reply matches UpstreamReply::Parsed(body) && r matches Ok(resp)
            && resp.usage.prompt_tokens == body.input_tokens && resp.usage.completion_tokens
            == Some(body.output_tokens) && resp.usage.total_tokens == body.input_tokens
            + body.output_tokens && resp.text@ == body.texts@[0]@ && resp.model@ == model,
{
}

/// The completion reply fits the usage counters.
pub open spec fn usage_fits(reply: UpstreamReply<CompletionBody>) -> bool {
    reply matches UpstreamReply::Parsed(body) ==> body.input_tokens + body.output_tokens
        <= u32::MAX
}

fn generation_outcome(
    vendor: &str,
    reply: UpstreamReply<CompletionBody>,
    model: &str,
) -> (r: Result<TextGenerationResponse, AppError>)
    requires
        reply.wf(),
        usage_fits(reply),
    ensures
        match reply {
            UpstreamReply::SendFailed(e) => r matches Err(err) && err.is(
                AppErrorKind::ExternalService,
                vendor@ + " request failed: "@ + e@,
            ),
            UpstreamReply::Rejected(status, body) => r matches Err(err) && err.kind()
                == rejection_detail(vendor@, status, body).0 && err.detail() == rejection_detail(
                vendor@,
                status,
                body,
            ).1,
            UpstreamReply::Unparsable(e) => r matches Err(err) && err.is(
                AppErrorKind::ExternalService,
                "Failed to parse "@ + vendor@ + " response: "@ + e@,
            ),
            UpstreamReply::Parsed(body) => if body.texts@.len() == 0 {
                r matches Err(err) && err.is(
                    AppErrorKind::ExternalService,
                    "No response from "@ + vendor@,
                )
            } else {
                generation_outcome_ok(reply, model@, r)
            },
        },
        reply matches UpstreamReply::Parsed(body) ==> (body.texts@.len() > 0 ==> (r matches Ok(
            resp,
        ) && resp.usage.prompt_tokens == body.input_tokens && resp.usage.completion_tokens
            == Some(body.output_tokens) && resp.usage.total_tokens == body.input_tokens
            + body.output_tokens && resp.text@ == body.texts@[0]@ && resp.model@ == model@)),
{
    match reply {
        UpstreamReply::SendFailed(e) => {
            let head = concat2(vendor, " request failed: ");
            Err(AppError::ExternalService(concat2(head.as_str(), e.as_str())))
        },
        UpstreamReply::Rejected(status, body) => {
            let text = status_text(status);
            match body {
                Some(Err(e)) => {
                    Err(
                        AppError::ExternalService(
                            concat4(
                                "HTTP error response (status ",
                                text.as_str(),
                                "): failed to read body: ",
                                e.as_str(),
                            ),
                        ),
                    )
                },
                Some(Ok(b)) => {
                    let head = concat4(vendor, " API error (status ", text.as_str(), "): ");
                    Err(AppError::ExternalService(concat2(head.as_str(), b.as_str())))
                },
                None => {
                    let head = concat4(vendor, " API error (status ", text.as_str(), "): ");
                    Err(AppError::ExternalService(head))
                },
            }
        },
        UpstreamReply::Unparsable(e) => {
            let head = concat3("Failed to parse ", vendor, " response: ");
            Err(AppError::ExternalService(concat2(head.as_str(), e.as_str())))
        },
        UpstreamReply::Parsed(body) => {
            if body.texts.len() == 0 {
                return Err(AppError::ExternalService(concat2("No response from ", vendor)));
            }
            let text = owned(body.texts[0].as_str());
            Ok(
                TextGenerationResponse {
                    text,
                    model: owned(model),
                    usage: LlmUsage::completion(body.input_tokens, body.output_tokens),
                },
            )
        },
    }
}

/// A chat request to an LLM provider: where it goes, its headers, and its
/// JSON body's model, messages (role and content) and token budget. The
/// sampling temperature, a float, is added to the body by the caller.
pub struct ChatRequest {
    pub url: String,
    pub headers: Vec<(String, String)>,
    pub model: String,
    pub messages: Vec<(String, String)>,
    pub max_tokens: u32,
}

fn pair(a: &str, b: &str) -> (r: (String, String))
    ensures
        r.0@ == a@,
        r.1@ == b@,
{
    (owned(a), owned(b))
}

/// The single user message of a prompt.
fn user_message(prompt: &str) -> (r: Vec<(String, String)>)
    ensures
        pairs_of(r@) == seq![("user"@, prompt@)],
{
    let mut messages: Vec<(String, String)> = Vec::new();
    messages.push(pair("user", prompt));
    assert(pairs_of(messages@) =~= seq![("user"@, prompt@)]);
    messages
}

/// OpenAI text-generation service.
pub struct OpenAiService;

impl OpenAiService {
    /// The chat-completions request for one prompt: posted to OpenAI's
    /// chat-completions endpoint with the key as a bearer token and a JSON
    /// content type.
    pub fn chat_request(api_key: &str, model: &str, prompt: &str, max_tokens: u32) -> (r:
        ChatRequest)
        ensures
            r.url@ == "https://api.openai.com/v1/chat/completions"@,
            pairs_of(r.headers@) == seq![
                ("Authorization"@, "Bearer "@ + api_key@),
                ("Content-Type"@, "application/json"@),
            ],
            r.model@ == model@,
            pairs_of(r.messages@) == seq![("user"@, prompt@)],
            r.max_tokens == max_tokens,
    {
        let mut headers: Vec<(String, String)> = Vec::new();
        let bearer = concat2("Bearer ", api_key);
        headers.push(pair("Authorization", bearer.as_str()));
        headers.push(pair("Content-Type", "application/json"));
        assert(pairs_of(headers@) =~= seq![
            ("Authorization"@, "Bearer "@ + api_key@),
            ("Content-Type"@, "application/json"@),
        ]);
        ChatRequest {
            url: owned("https://api.openai.com/v1/chat/completions"),
            headers,
            model: owned(model),
            messages: user_message(prompt),
            max_tokens,
        }
    }

    /// The answer to a generation request from OpenAI's chat-completions
    /// reply: the first choice's text under the requested model, or an
    /// error naming OpenAI.
    pub fn generation_outcome(reply: UpstreamReply<CompletionBody>, model: &str) -> (r: Result<
        TextGenerationResponse,
        AppError,
    >)
        requires
            reply.wf(),
            usage_fits(reply),
        ensures
            match reply {
                UpstreamReply::SendFailed(e) => r matches Err(err) && err.is(
                    AppErrorKind::ExternalService,
                    "OpenAI"@ + " request failed: "@ + e@,
                ),
                UpstreamReply::Rejected(status, body) => r matches Err(err) && err.kind()
                    == rejection_detail("OpenAI"@, status, body).0 && err.detail()
                    == rejection_detail("OpenAI"@, status, body).1,
                UpstreamReply::Unparsable(e) => r matches Err(err) && err.is(
                    AppErrorKind::ExternalService,
                    "Failed to parse "@ + "OpenAI"@ + " response: "@ + e@,
                ),
                UpstreamReply::Parsed(body) => if body.texts@.len() == 0 {
                    r matches Err(err) && err.is(
                        AppErrorKind::ExternalService,
                        "No response from "@ + "OpenAI"@,
                    )
                } else {
                    generation_outcome_ok(reply, model@, r)
                },
            },
            reply matches UpstreamReply::Parsed(body) ==> (body.texts@.len() > 0 ==> (r matches Ok(
                resp,
            ) && resp.usage.prompt_tokens == body.input_tokens && resp.usage.completion_tokens
                == Some(body.output_tokens) && resp.usage.total_tokens == body.input_tokens
                + body.output_tokens && resp.text@ == body.texts@[0]@ && resp.model@ == model@)),
    {
        generation_outcome("OpenAI", reply, model)
    }
}

/// Anthropic text-generation service.
pub struct AnthropicService;

impl AnthropicService {
    /// The messages request for one prompt: posted to Anthropic's messages
    /// endpoint with the key in `x-api-key`, the API version `2023-06-01`
    /// and a JSON content type.
    pub fn chat_request(api_key: &str, model: &str, prompt: &str, max_tokens: u32) -> (r:
        ChatRequest)
        ensures
            r.url@ == "https://api.anthropic.com/v1/messages"@,
            pairs_of(r.headers@) == seq![
                ("x-api-key"@, api_key@),
                ("anthropic-version"@, "2023-06-01"@),
                ("Content-Type"@, "application/json"@),
            ],
            r.model@ == model@,
            pairs_of(r.messages@) == seq![("user"@, prompt@)],
            r.max_tokens == max_tokens,
    {
        let mut headers: Vec<(String, String)> = Vec::new();
        headers.push(pair("x-api-key", api_key));
        headers.push(pair("anthropic-version", "2023-06-01"));
        headers.push(pair("Content-Type", "application/json"));
        assert(pairs_of(headers@) =~= seq![
            ("x-api-key"@, api_key@),
            ("anthropic-version"@, "2023-06-01"@),
            ("Content-Type"@, "application/json"@),
        ]);
        ChatRequest {
            url: owned("https://api.anthropic.com/v1/messages"),
            headers,
            model: owned(model),
            messages: user_message(prompt),
            max_tokens,
        }
    }

    /// The answer to a generation request from Anthropic's messages reply:
    /// the first content block's text under the requested model, or an
    /// error naming Anthropic.
    pub fn generation_outcome(reply: UpstreamReply<CompletionBody>, model: &str) -> (r: Result<
        TextGenerationResponse,
        AppError,
    >)
        requires
            reply.wf(),
            usage_fits(reply),
        ensures
            match reply {
                UpstreamReply::SendFailed(e) => r matches Err(err) && err.is(
                    AppErrorKind::ExternalService,
                    "Anthropic"@ + " request failed: "@ + e@,
                ),
                UpstreamReply::Rejected(status, body) => r matches Err(err) && err.kind()
                    == rejection_detail("Anthropic"@, status, body).0 && err.detail()
                    == rejection_detail("Anthropic"@, status, body).1,
                UpstreamReply::Unparsable(e) => r matches Err(err) && err.is(
                    AppErrorKind::ExternalService,
                    "Failed to parse "@ + "Anthropic"@ + " response: "@ + e@,
                ),
                UpstreamReply::Parsed(body) => if body.texts@.len() == 0 {
                    r matches Err(err) && err.is(
                        AppErrorKind::ExternalService,
                        "No response from "@ + "Anthropic"@,
                    )
                } else {
                    generation_outcome_ok(reply, model@, r)
                },
            },
            reply matches UpstreamReply::Parsed(body) ==> (body.texts@.len() > 0 ==> (r matches Ok(
                resp,
            ) && resp.usage.prompt_tokens == body.input_tokens && resp.usage.completion_tokens
                == Some(body.output_tokens) && resp.usage.total_tokens == body.input_tokens
                + body.output_tokens && resp.text@ == body.texts@[0]@ && resp.model@ == model@)),
    {
        generation_outcome("Anthropic", reply, model)
    }
}

} // verus!
