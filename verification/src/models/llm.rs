//! LLM request/response types: providers, token usage, and the validation
//! rules of generation and embedding requests.

use vstd::prelude::*;

use crate::text::{is_blank, is_blank_spec, owned};
use crate::validation::{field_error, push_if, FieldErrorView, ValidationError, ValidationErrors};

verus! {

/// Rejects empty or whitespace-only strings with the code `non_blank`.
pub fn validate_non_blank(s: &str) -> (r: Result<(), ValidationError>)
    ensures
        r is Ok <==> !is_blank_spec(s@),
        r matches Err(e) ==> e.code@ == "non_blank"@ && e.message is None,
{
    if is_blank(s) {
        return Err(ValidationError { code: owned("non_blank"), message: None });
    }
    Ok(())
}

/// Supported LLM providers.
#[derive(Debug, Clone, Copy, PartialEq, Eq, Structural)]
pub enum LlmProvider {
    OpenAI,
    Anthropic,
}

impl LlmProvider {
    /// The provider's name: `openai` or `anthropic`.
    pub open spec fn name(self) -> Seq<char> {
        match self {
            LlmProvider::OpenAI => "openai"@,
            LlmProvider::Anthropic => "anthropic"@,
        }
    }

    /// The provider's name (its display form).
    pub fn to_string(&self) -> (r: String)
        ensures
            r@ == self.name(),
    {
        match self {
            LlmProvider::OpenAI => owned("openai"),
            LlmProvider::Anthropic => owned("anthropic"),
        }
    }
}

impl Default for LlmProvider {
    fn default() -> (r: LlmProvider)
        ensures
            r == LlmProvider::OpenAI,
    {
        LlmProvider::OpenAI
    }
}

/// Token usage information for LLM API calls.
#[derive(Debug, Clone, Copy, PartialEq, Eq, Structural)]
pub struct LlmUsage {
    pub prompt_tokens: u32,
    pub completion_tokens: Option<u32>,
    pub total_tokens: u32,
}

impl LlmUsage {
    /// Usage of a completion: the total is the sum of prompt and completion tokens.
    pub fn completion(prompt_tokens: u32, completion_tokens: u32) -> (r: LlmUsage)
        requires
            prompt_tokens + completion_tokens <= u32::MAX,
        ensures
            r.prompt_tokens == prompt_tokens,
            r.completion_tokens == Some(completion_tokens),
            r.total_tokens == prompt_tokens + completion_tokens,
    {
        LlmUsage {
            prompt_tokens,
            completion_tokens: Some(completion_tokens),
            total_tokens: prompt_tokens + completion_tokens,
        }
    }

    /// Usage of an embedding: only prompt tokens, which are also the total.
    pub fn embedding(prompt_tokens: u32) -> (r: LlmUsage)
        ensures
            r.prompt_tokens == prompt_tokens,
            r.completion_tokens is None,
            r.total_tokens == prompt_tokens,
    {
        LlmUsage { prompt_tokens, completion_tokens: None, total_tokens: prompt_tokens }
    }
}

/// The default text-generation model.
pub fn default_text_model() -> (r: String)
    ensures
        r@ == "gpt-4o-mini"@,
{
    owned("gpt-4o-mini")
}

/// The default generation budget in tokens.
pub fn default_max_tokens() -> (r: u32)
    ensures
        r == 500,
{
    500
}

/// The rules that the prompt, model and token budget of a text-generation
/// request break (the temperature range is checked where the float lives).
pub open spec fn generation_broken_rules(prompt: Seq<char>, model: Seq<char>, max_tokens: u32) -> Seq<
    FieldErrorView,
> {
    let s0 = Seq::<FieldErrorView>::empty();
    let s1 = push_if(s0, prompt.len() == 0, field_error("prompt"@, "length"@, "Prompt cannot be empty"@));
    let s2 = push_if(
        s1,
        is_blank_spec(prompt),
        field_error("prompt"@, "non_blank"@, "Prompt cannot be whitespace only"@),
    );
    let s3 = push_if(
        s2,
        is_blank_spec(model),
        field_error("model"@, "non_blank"@, "Model cannot be whitespace only"@),
    );
    push_if(
        s3,
        !(1 <= max_tokens <= 4000),
        field_error("max_tokens"@, "range"@, "max_tokens must be between 1 and 4000"@),
    )
}

/// Checks the prompt (not empty, not blank), the model (not blank) and the
/// token budget (1 to 4000) of a text-generation request.
pub fn validate_generation_fields(prompt: &str, model: &str, max_tokens: u32) -> (r:
    ValidationErrors)
    ensures
        r@ == generation_broken_rules(prompt@, model@, max_tokens),
{
    let mut errors = ValidationErrors::new();
    if prompt.is_empty() {
        errors.add("prompt", "length", "Prompt cannot be empty");
    }
    if is_blank(prompt) {
        errors.add("prompt", "non_blank", "Prompt cannot be whitespace only");
    }
    if is_blank(model) {
        errors.add("model", "non_blank", "Model cannot be whitespace only");
    }
    if !(1 <= max_tokens && max_tokens <= 4000) {
        errors.add("max_tokens", "range", "max_tokens must be between 1 and 4000");
    }
    errors
}

/// Response from text generation.
#[derive(Debug, Clone)]
pub struct TextGenerationResponse {
    pub text: String,
    pub model: String,
    pub usage: LlmUsage,
}

/// Request for creating an embedding.
#[derive(Debug, Clone)]
pub struct EmbeddingRequest {
    pub text: String,
    pub model: String,
    pub provider: LlmProvider,
}

impl EmbeddingRequest {
    /// The rules broken by an embedding request.
    pub open spec fn broken_rules(text: Seq<char>, model: Seq<char>) -> Seq<FieldErrorView> {
        let s1 = push_if(
            Seq::<FieldErrorView>::empty(),
            text.len() == 0,
            field_error("text"@, "length"@, "Text cannot be empty"@),
        );
        let s2 = push_if(
            s1,
            is_blank_spec(text),
            field_error("text"@, "non_blank"@, "Text cannot be whitespace only"@),
        );
        push_if(
            s2,
            is_blank_spec(model),
            field_error("model"@, "non_blank"@, "Model cannot be whitespace only"@),
        )
    }

    /// Checks the request: text not empty and not blank, model not blank.
    pub fn validate(&self) -> (r: Result<(), ValidationErrors>)
        ensures
            r is Ok <==> Self::broken_rules(self.text@, self.model@).len() == 0,
            r matches Err(e) ==> e@ == Self::broken_rules(self.text@, self.model@),
    {
        let mut errors = ValidationErrors::new();
        if self.text.as_str().is_empty() {
            errors.add("text", "length", "Text cannot be empty");
        }
        if is_blank(self.text.as_str()) {
            errors.add("text", "non_blank", "Text cannot be whitespace only");
        }
        if is_blank(self.model.as_str()) {
            errors.add("model", "non_blank", "Model cannot be whitespace only");
        }
        errors.into_result()
    }
}

} // verus!
