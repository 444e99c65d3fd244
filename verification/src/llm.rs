//! LLM generation: the backend interface, the offline mock's responses, and
//! the request and reply handling of the Gemini generation API.

use vstd::prelude::*;
use vstd::string::StringExecFns;
use std::time::Duration;
use crate::error::LlmError;
use crate::text::{words, word_count};

verus! {

/// Model generation response payload.
#[derive(Debug)]
pub struct LlmResponse {
    /// Generated output text.
    pub text: String,
    /// Estimated or reported prompt tokens consumed.
    pub prompt_tokens: usize,
    /// Completion tokens generated.
    pub completion_tokens: usize,
    /// Generation wall-clock duration.
    pub latency: Duration,
}

impl Clone for LlmResponse {
    fn clone(&self) -> (r: Self)
        ensures
            r.text@ == self.text@,
            r.prompt_tokens == self.prompt_tokens,
            r.completion_tokens == self.completion_tokens,
            r.latency == self.latency,
    {
        LlmResponse {
            text: self.text.clone(),
            prompt_tokens: self.prompt_tokens,
            completion_tokens: self.completion_tokens,
            latency: self.latency,
        }
    }
}

/// Uniform interface for Large Language Model generation: a response to the
/// user query, with the compressed conversation history when there is one.
pub trait LlmBackend {
    /// Generates a response to the given user query with optional compressed
    /// conversation history.
    fn generate(&self, query: &str, history: Option<&str>) -> Result<LlmResponse, LlmError>;
}

// ---------------------------------------------------------------------------
// Mock backend
// ---------------------------------------------------------------------------

/// The mock's response text: a fixed hallucination when one is injected,
/// otherwise an answer that quotes the history when there is one.
pub open spec fn mock_text_spec(query: Seq<char>, history: Option<Seq<char>>, hallucinate: bool) -> Seq<char> {
    if hallucinate {
        "Regarding your inquiry '"@ + query
            + "', I can definitively confirm that the lunar surface is composed of solid titanium carbide crystal formations."@
    } else {
        match history {
            Some(h) => "Based on our earlier discussion ('"@ + h + "'), here is the answer to '"@ + query
                + "': ControlPlane Checker enforces high-performance guardrails across all stages."@,
            None => "Here is the synthesized response to your request '"@ + query
                + "': All input guardrails have cleared successfully."@,
        }
    }
}

/// The view of an optional text.
pub open spec fn opt_text(t: Option<&str>) -> Option<Seq<char>> {
    match t {
        Some(s) => Some(s@),
        None => None,
    }
}

/// Builds the mock's response text.
pub fn mock_response_text(query: &str, history: Option<&str>, hallucinate: bool) -> (r: String)
    ensures
        r@ == mock_text_spec(query@, opt_text(history), hallucinate),
{
    if hallucinate {
        let mut r = String::from_str("Regarding your inquiry '");
        r.append(query);
        r.append("', I can definitively confirm that the lunar surface is composed of solid titanium carbide crystal formations.");
        r
    } else {
        match history {
            Some(h) => {
                let mut r = String::from_str("Based on our earlier discussion ('");
                r.append(h);
                r.append("'), here is the answer to '");
                r.append(query);
                r.append("': ControlPlane Checker enforces high-performance guardrails across all stages.");
                r
            },
            None => {
                let mut r = String::from_str("Here is the synthesized response to your request '");
                r.append(query);
                r.append("': All input guardrails have cleared successfully.");
                r
            },
        }
    }
}

/// The mock's prompt token estimate: the query's words plus ten (saturating).
pub open spec fn mock_prompt_tokens(query: Seq<char>) -> int {
    if words(query).len() + 10 <= usize::MAX { (words(query).len() + 10) as int } else { usize::MAX as int }
}

/// The mock's response to a query: its text (see `mock_response_text`), the
/// query's words plus ten as prompt tokens, the text's words as completion
/// tokens, and the measured latency.
pub fn mock_response(query: &str, history: Option<&str>, hallucinate: bool, latency: Duration) -> (r: LlmResponse)
    ensures
        r.text@ == mock_text_spec(query@, opt_text(history), hallucinate),
        r.prompt_tokens == mock_prompt_tokens(query@),
        r.completion_tokens == words(r.text@).len(),
        r.latency == latency,
{
    let text = mock_response_text(query, history, hallucinate);
    let prompt_tokens = word_count(query).saturating_add(10);
    let completion_tokens = word_count(text.as_str());
    LlmResponse { text, prompt_tokens, completion_tokens, latency }
}

// ---------------------------------------------------------------------------
// Gemini generation API
// ---------------------------------------------------------------------------

/// Picks the Gemini API key: the configured key, else the first environment
/// variable's value, else the second's.
pub open spec fn api_key_spec(configured: Option<String>, primary: Option<String>, secondary: Option<String>) -> Option<Seq<char>> {
    match configured {
        Some(k) => Some(k@),
        None => match primary {
            Some(k) => Some(k@),
            None => match secondary {
                Some(k) => Some(k@),
                None => None,
            },
        },
    }
}

/// Resolves the Gemini API key from the configuration and the two
/// environment variables (`CP_LLM__API_KEY`, then `GEMINI_API_KEY`), in that
/// order. Without any, the error is a missing key for provider "gemini".
pub fn resolve_api_key(configured: Option<String>, primary: Option<String>, secondary: Option<String>) -> (r: Result<String, LlmError>)
    ensures
        match api_key_spec(configured, primary, secondary) {
            Some(k) => r matches Ok(s) && s@ == k,
            None => r matches Err(LlmError::MissingApiKey(p)) && p@ == "gemini"@,
        },
{
    match configured {
        Some(k) => Ok(k),
        None => match primary {
            Some(k) => Ok(k),
            None => match secondary {
                Some(k) => Ok(k),
                None => Err(LlmError::MissingApiKey(String::from_str("gemini"))),
            },
        },
    }
}

/// The generation endpoint of a Gemini model.
pub open spec fn endpoint_spec(model: Seq<char>, api_key: Seq<char>) -> Seq<char> {
    "https://generativelanguage.googleapis.com/v1beta/models/"@ + model + ":generateContent?key="@ + api_key
}

/// Builds the generation endpoint URL of a Gemini model.
pub fn gemini_endpoint(model: &str, api_key: &str) -> (r: String)
    ensures
        r@ == endpoint_spec(model@, api_key@),
{
    let mut r = String::from_str("https://generativelanguage.googleapis.com/v1beta/models/");
    r.append(model);
    r.append(":generateContent?key=");
    r.append(api_key);
    r
}

/// One turn of the conversation sent to the model.
#[derive(Debug, Clone)]
pub struct PromptTurn {
    /// "user" or "model".
    pub role: &'static str,
    /// The turn's text.
    pub text: String,
}

/// The turns sent to Gemini, as (role, text): with a history, a user turn
/// that gives it as prior context and the model's acknowledgement come first;
/// the query is the last user turn.
pub open spec fn prompt_turns_spec(query: Seq<char>, history: Option<Seq<char>>) -> Seq<(Seq<char>, Seq<char>)> {
    match history {
        Some(h) => seq![
            ("user"@, "Prior conversation context:\n"@ + h),
            ("model"@, "Acknowledged. I will consider the prior context in my response."@),
            ("user"@, query),
        ],
        None => seq![("user"@, query)],
    }
}

/// The (role, text) view of a turn.
pub open spec fn turn_view(t: PromptTurn) -> (Seq<char>, Seq<char>) {
    (t.role@, t.text@)
}

/// Builds the conversation turns of a Gemini request.
pub fn gemini_prompt_turns(query: &str, history: Option<&str>) -> (r: Vec<PromptTurn>)
    ensures
        r@.map_values(|t: PromptTurn| turn_view(t)) == prompt_turns_spec(query@, opt_text(history)),
{
    let mut r: Vec<PromptTurn> = Vec::new();
    if let Some(h) = history {
        let mut context = String::from_str("Prior conversation context:\n");
        context.append(h);
        r.push(PromptTurn { role: "user", text: context });
        r.push(PromptTurn {
            role: "model",
            text: String::from_str("Acknowledged. I will consider the prior context in my response."),
        });
    }
    r.push(PromptTurn { role: "user", text: String::from_str(query) });
    proof {
        assert(r@.map_values(|t: PromptTurn| turn_view(t)) =~= prompt_turns_spec(query@, opt_text(history)));
    }
    r
}

/// The error of a failed request: a timeout (reported with the client's
/// timeout in milliseconds) or another HTTP failure with its message.
pub fn transport_error(is_timeout: bool, timeout_ms: u64, message: String) -> (e: LlmError)
    ensures
        is_timeout ==> e == LlmError::Timeout(timeout_ms),
        !is_timeout ==> (e matches LlmError::Http(m) && m@ == message@),
{
    if is_timeout {
        LlmError::Timeout(timeout_ms)
    } else {
        LlmError::Http(message)
    }
}

/// The fields read from a Gemini reply.
#[derive(Debug, Clone)]
pub struct GeminiReply {
    /// The HTTP status code.
    pub status: u16,
    /// Whether the status is a success (2xx).
    pub success: bool,
    /// The body text of a failed reply, when it could be read.
    pub error_body: Option<String>,
    /// The first candidate's first text part, when the reply has one.
    pub candidate_text: Option<String>,
    /// `usageMetadata.promptTokenCount`, when present.
    pub prompt_token_count: Option<u64>,
    /// `usageMetadata.candidatesTokenCount`, when present.
    pub candidates_token_count: Option<u64>,
}

/// A reported token count as `usize`: 0 when absent or too large.
pub open spec fn token_count_spec(n: Option<u64>) -> usize {
    match n {
        Some(v) => if v <= usize::MAX { v as usize } else { 0 },
        None => 0,
    }
}

fn token_count(n: Option<u64>) -> (r: usize)
    ensures
        r == token_count_spec(n),
{
    match n {
        Some(v) => if v <= usize::MAX as u64 { v as usize } else { 0 },
        None => 0,
    }
}

/// Interprets a Gemini reply: a failed status is a provider error carrying
/// the status and the body text ("unknown error" when it could not be read);
/// a reply without candidate text is an invalid response; otherwise the
/// response carries the text and the reported token counts.
pub fn interpret_gemini_reply(reply: GeminiReply, latency: Duration) -> (r: Result<LlmResponse, LlmError>)
    ensures
        !reply.success ==> (r matches Err(LlmError::ProviderError { status, message })
            && status == reply.status
            && message@ == (match reply.error_body { Some(b) => b@, None => "unknown error"@ })),
        reply.success && reply.candidate_text is None ==> (r matches Err(LlmError::InvalidResponse(m))
            && m@ == "missing candidate text in Gemini response"@),
        reply.success && reply.candidate_text is Some ==> (r matches Ok(resp)
            && resp.text@ == reply.candidate_text.unwrap()@
            && resp.prompt_tokens == token_count_spec(reply.prompt_token_count)
            && resp.completion_tokens == token_count_spec(reply.candidates_token_count)
            && resp.latency == latency),
{
    if !reply.success {
        let message = match reply.error_body {
            Some(b) => b,
            None => String::from_str("unknown error"),
        };
        return Err(LlmError::ProviderError { status: reply.status, message });
    }
    match reply.candidate_text {
        None => Err(LlmError::InvalidResponse(String::from_str("missing candidate text in Gemini response"))),
        Some(text) => Ok(LlmResponse {
            text,
            prompt_tokens: token_count(reply.prompt_token_count),
            completion_tokens: token_count(reply.candidates_token_count),
            latency,
        }),
    }
}

} // verus!
