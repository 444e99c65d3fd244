use controlplane::config::{
    default_block_classes, default_bind, default_closed_policy, default_coherence_timeout, default_llm_backend,
    default_llm_model, default_max_chars, default_max_tokens, default_min_chars, default_min_tokens,
    default_open_policy, default_optimization_level, InferenceConfig, PiiConfig, PipelineConfig, ServerConfig,
    TelemetryConfig,
};
use controlplane::context::{prefilter_runs, GateContext, RequestContext, RequestOptions};
use controlplane::error::{ConfigError, GateError, InferenceError, LlmError, PipelineError};
use controlplane::verdict::{BlockReason, Decision, FailurePolicy, GateId, Stage, Verdict};

#[test]
fn gate_names() {
    assert_eq!(GateId::Prefilter.as_str(), "prefilter");
    assert_eq!(GateId::Coherence.as_str(), "coherence");
    assert_eq!(GateId::Pii.as_str(), "pii");
    assert_eq!(GateId::Toxicity.as_str(), "toxicity");
    assert_eq!(GateId::Intent.as_str(), "intent");
    assert_eq!(GateId::Grounding.as_str(), "grounding");
    assert_eq!(GateId::Relevance.as_str(), "relevance");
    assert_eq!(Stage::Input.as_str(), "input");
    assert_eq!(Stage::Output.as_str(), "output");
    assert_eq!(Decision::Allow.as_str(), "allow");
    assert_eq!(Decision::Block.as_str(), "block");
}

#[test]
fn verdict_predicates() {
    let p: Verdict<f32> = Verdict::Pass;
    let b: Verdict<f32> = Verdict::Block { reason: BlockReason::PrefilterNoise { message: "x".to_string() } };
    let c: Verdict<f32> = Verdict::Clarify { hint: "h".to_string() };
    assert!(p.is_pass() && !p.is_block() && !p.is_clarify());
    assert!(!b.is_pass() && b.is_block() && !b.is_clarify());
    assert!(!c.is_pass() && !c.is_block() && c.is_clarify());
}

#[test]
fn block_reason_messages() {
    let r: BlockReason<f32> = BlockReason::PrefilterNoise { message: "query too short".to_string() };
    assert_eq!(r.message("", ""), "prefilter noise: query too short");
    let r: BlockReason<f32> = BlockReason::Incoherent { score: 0.9, threshold: 0.7 };
    assert_eq!(r.message("0.900", "0.700"), "incoherent query (score=0.900, threshold=0.700)");
    let r: BlockReason<f32> =
        BlockReason::PiiDetected { matched_classes: vec!["payment_card".to_string(), "pan".to_string()] };
    assert_eq!(r.message("", ""), "high-risk PII detected: payment_card, pan");
    let r: BlockReason<f32> = BlockReason::ToxicContent { score: 0.95, threshold: 0.7 };
    assert_eq!(r.message("0.950", "0.700"), "toxic content (score=0.950, threshold=0.700)");
    let r: BlockReason<f32> = BlockReason::PromptAttack { score: 0.98, threshold: 0.85 };
    assert_eq!(r.message("0.980", "0.850"), "prompt injection detected (score=0.980, threshold=0.850)");
    let r: BlockReason<f32> = BlockReason::UngroundedResponse { score: 0.6, threshold: 0.5 };
    assert_eq!(r.message("0.600", "0.500"), "ungrounded response (score=0.600, threshold=0.500)");
    let r: BlockReason<f32> = BlockReason::IrrelevantResponse { score: 0.1, threshold: 0.3 };
    assert_eq!(r.message("0.100", "0.300"), "irrelevant response (score=0.100, threshold=0.300)");
    let r: BlockReason<f32> = BlockReason::Timeout { gate: GateId::Pii, timeout_ms: 50 };
    assert_eq!(r.message("", ""), "gate pii timed out after 50ms (fail-closed)");
    let r: BlockReason<f32> = BlockReason::GateError { gate: GateId::Toxicity, message: "boom".to_string() };
    assert_eq!(r.message("", ""), "gate toxicity error: boom (fail-closed)");
    let r: BlockReason<f32> = BlockReason::ClarificationRequired { hint: "which one?".to_string() };
    assert_eq!(r.message("", ""), "clarification required: which one?");
}

#[test]
fn error_messages() {
    assert_eq!(InferenceError::ModelNotFound("x".to_string()).message(), "model 'x' not found in registry");
    assert_eq!(
        InferenceError::TokenizerError { model: "m".to_string(), message: "bad".to_string() }.message(),
        "tokenization error for model 'm': bad"
    );
    assert_eq!(
        InferenceError::ShapeMismatch { model: "m".to_string(), expected: "[1, 3]".to_string(), actual: "[1]".to_string() }
            .message(),
        "shape mismatch for model 'm': expected [1, 3], found [1]"
    );
    assert_eq!(InferenceError::JoinError("j".to_string()).message(), "blocking task join error: j");
    assert_eq!(GateError::Timeout(GateId::Coherence).message(), "gate 'coherence' timed out");
    assert_eq!(GateError::Disabled(GateId::Pii).message(), "gate 'pii' is disabled");
    assert_eq!(
        GateError::Inference { gate: GateId::Toxicity, source: InferenceError::ModelNotFound("t".to_string()) }
            .message(),
        "inference failure in gate 'toxicity': model 't' not found in registry"
    );
    assert_eq!(
        LlmError::ProviderError { status: 503, message: "busy".to_string() }.message(),
        "LLM provider returned status 503: busy"
    );
    assert_eq!(LlmError::Timeout(15000).message(), "LLM generation timed out after 15000ms");
    assert_eq!(
        LlmError::MissingApiKey("gemini".to_string()).message(),
        "LLM API key not configured for provider 'gemini'"
    );
    assert_eq!(ConfigError::InvalidConfig("bad".to_string()).message(), "invalid configuration: bad");
    assert_eq!(
        ConfigError::FileReadError { path: "a.toml".to_string(), message: "missing".to_string() }.message(),
        "failed to read configuration file 'a.toml': missing"
    );
    assert_eq!(PipelineError::Internal("oops".to_string()).message(), "pipeline internal error: oops");
    let converted: PipelineError = PipelineError::from(LlmError::Http("reset".to_string()));
    match converted {
        PipelineError::Llm(LlmError::Http(m)) => assert_eq!(m, "reset"),
        other => panic!("unexpected {other:?}"),
    }
}

#[test]
fn configuration_defaults() {
    let server = ServerConfig::default();
    assert_eq!(server.bind, "0.0.0.0:8080");
    assert_eq!(server.request_timeout_ms, 5000);
    assert_eq!(server.max_body_bytes, 65536);
    assert_eq!(server.shutdown_grace_ms, 10000);
    let pipeline = PipelineConfig::default();
    assert!(!pipeline.clarify_enabled);
    assert_eq!(pipeline.input_gate_budget_ms, 120);
    assert_eq!(pipeline.output_gate_budget_ms, 200);
    let inference = InferenceConfig::default();
    assert_eq!(inference.pool_size_per_model, 4);
    assert_eq!(inference.graph_optimization_level, "all");
    assert!(!inference.force_stub);
    assert_eq!(inference.model_dir, "models");
    let pii = PiiConfig::default();
    assert!(pii.enabled);
    assert_eq!(pii.block_classes, vec!["payment_card", "aadhaar", "pan", "credential"]);
    assert_eq!(pii.timeout_ms, 50);
    assert_eq!(pii.failure_policy, FailurePolicy::Closed);
    let telemetry = TelemetryConfig::default();
    assert_eq!(telemetry.log_format, "json");
    assert_eq!(telemetry.log_level, "info");
    assert_eq!(default_bind(), "0.0.0.0:8080");
    assert_eq!(default_optimization_level(), "all");
    assert_eq!(default_min_chars(), 2);
    assert_eq!(default_max_chars(), 8000);
    assert_eq!(default_min_tokens(), 3);
    assert_eq!(default_max_tokens(), 64);
    assert_eq!(default_coherence_timeout(), 40);
    assert_eq!(default_open_policy(), FailurePolicy::Open);
    assert_eq!(default_closed_policy(), FailurePolicy::Closed);
    assert_eq!(default_block_classes().len(), 4);
    assert_eq!(default_llm_backend(), "mock");
    assert_eq!(default_llm_model(), "gemini-2.0-flash");
}

#[test]
fn request_context_options() {
    let options = RequestOptions { skip_gates: vec![GateId::Prefilter, GateId::Toxicity], dry_run: true };
    let ctx = RequestContext::new(Some("session-123".to_string()), None, options);
    assert!(ctx.should_skip(GateId::Prefilter));
    assert!(ctx.should_skip(GateId::Toxicity));
    assert!(!ctx.should_skip(GateId::Pii));
    assert!(ctx.is_dry_run());
    assert_eq!(ctx.session_id.as_deref(), Some("session-123"));
    assert!(!prefilter_runs(true, &ctx));
    let plain = RequestContext::new(None, Some("earlier".to_string()), RequestOptions::default());
    assert!(!plain.is_dry_run());
    assert!(prefilter_runs(true, &plain));
    assert!(!prefilter_runs(false, &plain));
    let input = GateContext::for_input(&plain, "q");
    assert_eq!(input.query, "q");
    assert!(input.response.is_none());
    let output = GateContext::for_output(&plain, "q", "r");
    assert_eq!(output.response, Some("r"));
}

#[test]
fn fresh_requests_get_distinct_trace_ids() {
    let a = RequestContext::new(None, None, RequestOptions::default());
    let b = RequestContext::new(None, None, RequestOptions::default());
    assert_ne!(a.trace_id, b.trace_id);
    let c = RequestContext::with_trace_id(a.trace_id, None, None, RequestOptions::default());
    assert_eq!(c.trace_id, a.trace_id);
}

#[test]
fn remaining_error_messages() {
    assert_eq!(
        InferenceError::FilesMissing { model: "m".to_string(), reason: "no weights".to_string() }.message(),
        "model files missing for 'm': no weights"
    );
    assert_eq!(
        InferenceError::OnnxError { model: "m".to_string(), message: "bad graph".to_string() }.message(),
        "ONNX Runtime error for model 'm': bad graph"
    );
    assert_eq!(
        InferenceError::PoolExhausted { model: "m".to_string(), message: "closed".to_string() }.message(),
        "session pool error for model 'm': closed"
    );
    assert_eq!(
        GateError::Internal { gate: GateId::Relevance, message: "oops".to_string() }.message(),
        "internal evaluation failure in gate 'relevance': oops"
    );
    assert_eq!(
        LlmError::Http("reset".to_string()).message(),
        "HTTP error communicating with LLM provider: reset"
    );
    assert_eq!(LlmError::InvalidResponse("eof".to_string()).message(), "failed to parse LLM response: eof");
    assert_eq!(
        PipelineError::BudgetExceeded { stage: "input", budget_ms: 120 }.message(),
        "stage 'input' wall-clock budget exceeded (120ms)"
    );
    assert_eq!(
        PipelineError::Llm(LlmError::Timeout(5)).message(),
        "pipeline LLM failure: LLM generation timed out after 5ms"
    );
}
