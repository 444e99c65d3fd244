//! Configuration types without floating-point fields, and the documented
//! default of every configuration setting.

use vstd::prelude::*;
use vstd::string::StringExecFns;
use crate::verdict::FailurePolicy;

verus! {

/// Model-specific configuration overrides (e.g. `[models.toxicity]`).
#[derive(Debug, Clone)]
pub struct ModelOverrideConfig {
    /// Override for the number of pooled sessions.
    pub pool_size: Option<usize>,
    /// Override for the weights filename (e.g. "model_optimized_quantized.onnx").
    pub weights_file: Option<String>,
}

/// HTTP server settings.
#[derive(Debug, Clone)]
pub struct ServerConfig {
    /// Socket binding address (e.g. "0.0.0.0:8080").
    pub bind: String,
    /// HTTP request timeout in milliseconds.
    pub request_timeout_ms: u64,
    /// Maximum allowed request body size in bytes.
    pub max_body_bytes: usize,
    /// Maximum grace period in milliseconds for server shutdown.
    pub shutdown_grace_ms: u64,
}

/// Default socket binding address: "0.0.0.0:8080".
pub fn default_bind() -> (s: String)
    ensures
        s@ == "0.0.0.0:8080"@,
{
    String::from_str("0.0.0.0:8080")
}

/// Default HTTP request timeout: 5000 ms.
pub fn default_request_timeout_ms() -> (v: u64)
    ensures
        v == 5000,
{
    5000
}

/// Default maximum request body size: 65536 bytes.
pub fn default_max_body_bytes() -> (v: usize)
    ensures
        v == 65536,
{
    65536
}

/// Default shutdown grace period: 10000 ms.
pub fn default_shutdown_grace_ms() -> (v: u64)
    ensures
        v == 10000,
{
    10000
}

impl Default for ServerConfig {
    fn default() -> (r: Self)
        ensures
            r.bind@ == "0.0.0.0:8080"@,
            r.request_timeout_ms == 5000,
            r.max_body_bytes == 65536,
            r.shutdown_grace_ms == 10000,
    {
        ServerConfig {
            bind: default_bind(),
            request_timeout_ms: default_request_timeout_ms(),
            max_body_bytes: default_max_body_bytes(),
            shutdown_grace_ms: default_shutdown_grace_ms(),
        }
    }
}

/// Pipeline coordination and overall budget settings.
#[derive(Debug, Clone)]
pub struct PipelineConfig {
    /// Enables user-facing Clarify verdicts; otherwise Clarify is mapped to Block.
    pub clarify_enabled: bool,
    /// Wall-clock budget for the whole Tier 1 input gate fan-out, in milliseconds.
    pub input_gate_budget_ms: u64,
    /// Wall-clock budget for the Tier 2 output gate fan-out, in milliseconds.
    pub output_gate_budget_ms: u64,
}

/// Default Tier 1 input budget: 120 ms.
pub fn default_input_budget_ms() -> (v: u64)
    ensures
        v == 120,
{
    120
}

/// Default Tier 2 output budget: 200 ms.
pub fn default_output_budget_ms() -> (v: u64)
    ensures
        v == 200,
{
    200
}

impl Default for PipelineConfig {
    fn default() -> (r: Self)
        ensures
            !r.clarify_enabled,
            r.input_gate_budget_ms == 120,
            r.output_gate_budget_ms == 200,
    {
        PipelineConfig {
            clarify_enabled: false,
            input_gate_budget_ms: default_input_budget_ms(),
            output_gate_budget_ms: default_output_budget_ms(),
        }
    }
}

/// Inference session pool and ONNX engine settings.
#[derive(Debug, Clone)]
pub struct InferenceConfig {
    /// Number of independent ONNX session instances pooled per model.
    pub pool_size_per_model: usize,
    /// Intra-op threads per session (must be 1 for a multi-session pool).
    pub intra_op_threads: usize,
    /// Inter-op threads per session (must be 1 for a multi-session pool).
    pub inter_op_threads: usize,
    /// Graph optimization level ("all", "basic", "extended", "disable").
    pub graph_optimization_level: String,
    /// When true, forces the stub backend even if ONNX weights exist on disk.
    pub force_stub: bool,
    /// Directory where exported model folders are located.
    pub model_dir: String,
}

/// Default number of pooled sessions per model: 4.
pub fn default_pool_size() -> (v: usize)
    ensures
        v == 4,
{
    4
}

/// Default intra-op and inter-op thread count per session: 1.
pub fn default_threads() -> (v: usize)
    ensures
        v == 1,
{
    1
}

/// Default graph optimization level: "all".
pub fn default_optimization_level() -> (s: String)
    ensures
        s@ == "all"@,
{
    String::from_str("all")
}

/// Default model directory: "models".
pub fn default_model_dir() -> (s: String)
    ensures
        s@ == "models"@,
{
    String::from_str("models")
}

impl Default for InferenceConfig {
    fn default() -> (r: Self)
        ensures
            r.pool_size_per_model == 4,
            r.intra_op_threads == 1,
            r.inter_op_threads == 1,
            r.graph_optimization_level@ == "all"@,
            !r.force_stub,
            r.model_dir@ == "models"@,
    {
        InferenceConfig {
            pool_size_per_model: default_pool_size(),
            intra_op_threads: default_threads(),
            inter_op_threads: default_threads(),
            graph_optimization_level: default_optimization_level(),
            force_stub: false,
            model_dir: default_model_dir(),
        }
    }
}

/// Default for the `enabled` switch of every gate: true.
pub fn default_true() -> (b: bool)
    ensures
        b,
{
    true
}

/// Default prefilter minimum input length: 2.
pub fn default_min_chars() -> (v: usize)
    ensures
        v == 2,
{
    2
}

/// Default prefilter maximum input length: 8000.
pub fn default_max_chars() -> (v: usize)
    ensures
        v == 8000,
{
    8000
}

/// Default minimum token count for running the coherence model: 3.
pub fn default_min_tokens() -> (v: usize)
    ensures
        v == 3,
{
    3
}

/// Default maximum token count for running the coherence model: 64.
pub fn default_max_tokens() -> (v: usize)
    ensures
        v == 64,
{
    64
}

/// Default coherence gate timeout: 40 ms.
pub fn default_coherence_timeout() -> (v: u64)
    ensures
        v == 40,
{
    40
}

/// The fail-open policy.
pub fn default_open_policy() -> (p: FailurePolicy)
    ensures
        p == FailurePolicy::Open,
{
    FailurePolicy::Open
}

/// The fail-closed policy.
pub fn default_closed_policy() -> (p: FailurePolicy)
    ensures
        p == FailurePolicy::Closed,
{
    FailurePolicy::Closed
}

/// The identifier classes that block by default.
pub open spec fn default_block_class_names() -> Seq<Seq<char>> {
    seq!["payment_card"@, "aadhaar"@, "pan"@, "credential"@]
}

/// Default PII block classes: payment_card, aadhaar, pan, credential.
pub fn default_block_classes() -> (v: Vec<String>)
    ensures
        v@.map_values(|s: String| s@) == default_block_class_names(),
{
    let mut v: Vec<String> = Vec::new();
    v.push(String::from_str("payment_card"));
    v.push(String::from_str("aadhaar"));
    v.push(String::from_str("pan"));
    v.push(String::from_str("credential"));
    proof {
        assert(v@.map_values(|s: String| s@) =~= default_block_class_names());
    }
    v
}

/// Default PII gate timeout: 50 ms.
pub fn default_pii_timeout() -> (v: u64)
    ensures
        v == 50,
{
    50
}

/// PII detection settings.
#[derive(Debug, Clone)]
pub struct PiiConfig {
    /// Whether PII detection is active.
    pub enabled: bool,
    /// Identifier classes that trigger a request block.
    pub block_classes: Vec<String>,
    /// Execution timeout in milliseconds.
    pub timeout_ms: u64,
    /// Fallback policy on error or timeout.
    pub failure_policy: FailurePolicy,
}

impl Default for PiiConfig {
    fn default() -> (r: Self)
        ensures
            r.enabled,
            r.block_classes@.map_values(|s: String| s@) == default_block_class_names(),
            r.timeout_ms == 50,
            r.failure_policy == FailurePolicy::Closed,
    {
        PiiConfig {
            enabled: default_true(),
            block_classes: default_block_classes(),
            timeout_ms: default_pii_timeout(),
            failure_policy: default_closed_policy(),
        }
    }
}

/// Default toxicity gate timeout: 40 ms.
pub fn default_toxicity_timeout() -> (v: u64)
    ensures
        v == 40,
{
    40
}

/// Default intent gate timeout: 40 ms.
pub fn default_intent_timeout() -> (v: u64)
    ensures
        v == 40,
{
    40
}

/// Default grounding premise cap before sliding-window truncation: 256 tokens.
pub fn default_grounding_max_premise() -> (v: usize)
    ensures
        v == 256,
{
    256
}

/// Default grounding gate timeout: 150 ms.
pub fn default_grounding_timeout() -> (v: u64)
    ensures
        v == 150,
{
    150
}

/// Default relevance premise cap before sliding-window truncation: 64 tokens.
pub fn default_relevance_max_premise() -> (v: usize)
    ensures
        v == 64,
{
    64
}

/// Default relevance gate timeout: 80 ms.
pub fn default_relevance_timeout() -> (v: u64)
    ensures
        v == 80,
{
    80
}

/// Default LLM backend: "mock".
pub fn default_llm_backend() -> (s: String)
    ensures
        s@ == "mock"@,
{
    String::from_str("mock")
}

/// Default LLM model: "gemini-2.0-flash".
pub fn default_llm_model() -> (s: String)
    ensures
        s@ == "gemini-2.0-flash"@,
{
    String::from_str("gemini-2.0-flash")
}

/// Default LLM generation timeout: 15000 ms.
pub fn default_llm_timeout() -> (v: u64)
    ensures
        v == 15000,
{
    15000
}

/// Default maximum number of generated tokens: 1024.
pub fn default_max_output_tokens() -> (v: usize)
    ensures
        v == 1024,
{
    1024
}

/// Default mean latency of the mock LLM: 700 ms.
pub fn default_mock_latency_mean() -> (v: u64)
    ensures
        v == 700,
{
    700
}

/// Default latency standard deviation of the mock LLM: 150 ms.
pub fn default_mock_latency_stddev() -> (v: u64)
    ensures
        v == 150,
{
    150
}

/// Telemetry, logging, and metrics configuration.
#[derive(Debug, Clone)]
pub struct TelemetryConfig {
    /// Log output format ("json" or "pretty").
    pub log_format: String,
    /// Log filtering level ("trace", "debug", "info", "warn", "error").
    pub log_level: String,
    /// Whether the Prometheus metrics endpoint is enabled.
    pub metrics_enabled: bool,
}

/// Default log format: "json".
pub fn default_log_format() -> (s: String)
    ensures
        s@ == "json"@,
{
    String::from_str("json")
}

/// Default log level: "info".
pub fn default_log_level() -> (s: String)
    ensures
        s@ == "info"@,
{
    String::from_str("info")
}

impl Default for TelemetryConfig {
    fn default() -> (r: Self)
        ensures
            r.log_format@ == "json"@,
            r.log_level@ == "info"@,
            r.metrics_enabled,
    {
        TelemetryConfig {
            log_format: default_log_format(),
            log_level: default_log_level(),
            metrics_enabled: default_true(),
        }
    }
}

} // verus!
