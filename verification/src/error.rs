//! Error taxonomy for inference, gate evaluation, LLM calls, configuration
//! loading and pipeline orchestration, with their operator-facing messages.

use vstd::prelude::*;
use vstd::string::StringExecFns;
use crate::text::{decimal, push_decimal};
use crate::verdict::{GateId, gate_name};

verus! {

/// Errors arising during inference execution or model management.
#[derive(Debug, Clone)]
pub enum InferenceError {
    /// Model with the given identifier was not found in the registry.
    ModelNotFound(String),
    /// Model files (weights or tokenizer) are missing from disk.
    FilesMissing { model: String, reason: String },
    /// Tokenizer failed to encode input text.
    TokenizerError { model: String, message: String },
    /// ONNX Runtime engine execution error.
    OnnxError { model: String, message: String },
    /// Inference session pool was exhausted or failed to provide a session.
    PoolExhausted { model: String, message: String },
    /// Model output tensor had an unexpected shape or missing dimension.
    ShapeMismatch { model: String, expected: String, actual: String },
    /// Background task failed during blocking inference execution.
    JoinError(String),
}

/// Errors arising during gate evaluation.
#[derive(Debug, Clone)]
pub enum GateError {
    /// Gate timed out before completing evaluation.
    Timeout(GateId),
    /// Underlying inference backend error during gate evaluation.
    Inference { gate: GateId, source: InferenceError },
    /// Gate encountered an internal evaluation failure.
    Internal { gate: GateId, message: String },
    /// Gate was invoked while disabled in configuration.
    Disabled(GateId),
}

/// Errors arising during LLM generation.
#[derive(Debug, Clone)]
pub enum LlmError {
    /// HTTP communication failure with the external LLM provider.
    Http(String),
    /// LLM provider returned an API error status.
    ProviderError { status: u16, message: String },
    /// LLM generation call exceeded the configured timeout (milliseconds).
    Timeout(u64),
    /// Required API authentication key is missing.
    MissingApiKey(String),
    /// LLM provider response payload was invalid or unparseable.
    InvalidResponse(String),
}

/// Errors arising during configuration loading and validation.
#[derive(Debug, Clone)]
pub enum ConfigError {
    /// Configuration syntax error or schema mismatch.
    InvalidConfig(String),
    /// Required configuration file could not be read.
    FileReadError { path: String, message: String },
}

/// Errors arising during overall pipeline orchestration.
#[derive(Debug, Clone)]
pub enum PipelineError {
    /// A stage exceeded its wall-clock budget.
    BudgetExceeded { stage: &'static str, budget_ms: u64 },
    /// Unrecoverable internal error in the pipeline.
    Internal(String),
    /// LLM generation failure in the pipeline.
    Llm(LlmError),
}

/// The message of an inference error.
pub open spec fn inference_message(e: InferenceError) -> Seq<char> {
    match e {
        InferenceError::ModelNotFound(m) => "model '"@ + m@ + "' not found in registry"@,
        InferenceError::FilesMissing { model, reason } => "model files missing for '"@ + model@ + "': "@ + reason@,
        InferenceError::TokenizerError { model, message } => "tokenization error for model '"@ + model@ + "': "@ + message@,
        InferenceError::OnnxError { model, message } => "ONNX Runtime error for model '"@ + model@ + "': "@ + message@,
        InferenceError::PoolExhausted { model, message } => "session pool error for model '"@ + model@ + "': "@ + message@,
        InferenceError::ShapeMismatch { model, expected, actual } => "shape mismatch for model '"@ + model@ + "': expected "@
            + expected@ + ", found "@ + actual@,
        InferenceError::JoinError(m) => "blocking task join error: "@ + m@,
    }
}

/// The message of a gate error.
pub open spec fn gate_error_message(e: GateError) -> Seq<char> {
    match e {
        GateError::Timeout(g) => "gate '"@ + gate_name(g) + "' timed out"@,
        GateError::Inference { gate, source } => "inference failure in gate '"@ + gate_name(gate) + "': "@ + inference_message(source),
        GateError::Internal { gate, message } => "internal evaluation failure in gate '"@ + gate_name(gate) + "': "@ + message@,
        GateError::Disabled(g) => "gate '"@ + gate_name(g) + "' is disabled"@,
    }
}

/// The message of an LLM error.
pub open spec fn llm_message(e: LlmError) -> Seq<char> {
    match e {
        LlmError::Http(m) => "HTTP error communicating with LLM provider: "@ + m@,
        LlmError::ProviderError { status, message } => "LLM provider returned status "@ + decimal(status as nat) + ": "@ + message@,
        LlmError::Timeout(ms) => "LLM generation timed out after "@ + decimal(ms as nat) + "ms"@,
        LlmError::MissingApiKey(p) => "LLM API key not configured for provider '"@ + p@ + "'"@,
        LlmError::InvalidResponse(m) => "failed to parse LLM response: "@ + m@,
    }
}

/// The message of a configuration error.
pub open spec fn config_message(e: ConfigError) -> Seq<char> {
    match e {
        ConfigError::InvalidConfig(m) => "invalid configuration: "@ + m@,
        ConfigError::FileReadError { path, message } => "failed to read configuration file '"@ + path@ + "': "@ + message@,
    }
}

/// The message of a pipeline error.
pub open spec fn pipeline_message(e: PipelineError) -> Seq<char> {
    match e {
        PipelineError::BudgetExceeded { stage, budget_ms } => "stage '"@ + stage@ + "' wall-clock budget exceeded ("@
            + decimal(budget_ms as nat) + "ms)"@,
        PipelineError::Internal(m) => "pipeline internal error: "@ + m@,
        PipelineError::Llm(l) => "pipeline LLM failure: "@ + llm_message(l),
    }
}

fn join2(a: &str, b: &str) -> (s: String)
    ensures
        s@ == a@ + b@,
{
    let mut s = String::from_str(a);
    s.append(b);
    s
}

fn join3(a: &str, b: &str, c: &str) -> (s: String)
    ensures
        s@ == a@ + b@ + c@,
{
    let mut s = String::from_str(a);
    s.append(b);
    s.append(c);
    s
}

fn join4(a: &str, b: &str, c: &str, d: &str) -> (s: String)
    ensures
        s@ == a@ + b@ + c@ + d@,
{
    let mut s = String::from_str(a);
    s.append(b);
    s.append(c);
    s.append(d);
    s
}

impl InferenceError {
    /// The operator-facing message of this error.
    pub fn message(&self) -> (s: String)
        ensures
            s@ == inference_message(*self),
    {
        match self {
            InferenceError::ModelNotFound(m) => join3("model '", m.as_str(), "' not found in registry"),
            InferenceError::FilesMissing { model, reason } => join4("model files missing for '", model.as_str(), "': ", reason.as_str()),
            InferenceError::TokenizerError { model, message } => join4("tokenization error for model '", model.as_str(), "': ", message.as_str()),
            InferenceError::OnnxError { model, message } => join4("ONNX Runtime error for model '", model.as_str(), "': ", message.as_str()),
            InferenceError::PoolExhausted { model, message } => join4("session pool error for model '", model.as_str(), "': ", message.as_str()),
            InferenceError::ShapeMismatch { model, expected, actual } => {
                let mut s = join4("shape mismatch for model '", model.as_str(), "': expected ", expected.as_str());
                s.append(", found ");
                s.append(actual.as_str());
                s
            },
            InferenceError::JoinError(m) => {
                let mut s = String::from_str("blocking task join error: ");
                s.append(m.as_str());
                s
            },
        }
    }
}

impl GateError {
    /// The operator-facing message of this error.
    pub fn message(&self) -> (s: String)
        ensures
            s@ == gate_error_message(*self),
    {
        match self {
            GateError::Timeout(g) => join3("gate '", g.as_str(), "' timed out"),
            GateError::Inference { gate, source } => {
                let mut s = join3("inference failure in gate '", gate.as_str(), "': ");
                let m = source.message();
                s.append(m.as_str());
                s
            },
            GateError::Internal { gate, message } => join4("internal evaluation failure in gate '", gate.as_str(), "': ", message.as_str()),
            GateError::Disabled(g) => join3("gate '", g.as_str(), "' is disabled"),
        }
    }
}

impl LlmError {
    /// The operator-facing message of this error.
    pub fn message(&self) -> (s: String)
        ensures
            s@ == llm_message(*self),
    {
        match self {
            LlmError::Http(m) => join2("HTTP error communicating with LLM provider: ", m.as_str()),
            LlmError::ProviderError { status, message } => {
                let mut s = String::from_str("LLM provider returned status ");
                push_decimal(&mut s, *status as u64);
                s.append(": ");
                s.append(message.as_str());
                s
            },
            LlmError::Timeout(ms) => {
                let mut s = String::from_str("LLM generation timed out after ");
                push_decimal(&mut s, *ms);
                s.append("ms");
                s
            },
            LlmError::MissingApiKey(p) => join3("LLM API key not configured for provider '", p.as_str(), "'"),
            LlmError::InvalidResponse(m) => join2("failed to parse LLM response: ", m.as_str()),
        }
    }
}

impl ConfigError {
    /// The operator-facing message of this error.
    pub fn message(&self) -> (s: String)
        ensures
            s@ == config_message(*self),
    {
        match self {
            ConfigError::InvalidConfig(m) => join2("invalid configuration: ", m.as_str()),
            ConfigError::FileReadError { path, message } => join4("failed to read configuration file '", path.as_str(), "': ", message.as_str()),
        }
    }
}

impl PipelineError {
    /// The operator-facing message of this error.
    pub fn message(&self) -> (s: String)
        ensures
            s@ == pipeline_message(*self),
    {
        match self {
            PipelineError::BudgetExceeded { stage, budget_ms } => {
                let st: &str = *stage;
                let mut s = join3("stage '", st, "' wall-clock budget exceeded (");
                push_decimal(&mut s, *budget_ms);
                s.append("ms)");
                s
            },
            PipelineError::Internal(m) => join2("pipeline internal error: ", m.as_str()),
            PipelineError::Llm(l) => {
                let mut s = String::from_str("pipeline LLM failure: ");
                let m = l.message();
                s.append(m.as_str());
                s
            },
        }
    }
}

impl From<LlmError> for PipelineError {
    fn from(err: LlmError) -> (r: Self)
        ensures
            r == PipelineError::Llm(err),
    {
        PipelineError::Llm(err)
    }
}

impl vstd::std_specs::convert::FromSpecImpl<LlmError> for PipelineError {
    open spec fn obeys_from_spec() -> bool {
        true
    }

    open spec fn from_spec(err: LlmError) -> Self {
        PipelineError::Llm(err)
    }
}

} // verus!
