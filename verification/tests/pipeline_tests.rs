use controlplane::error::{LlmError, PipelineError};
use controlplane::executor::{FanOut, FanOutSummary, GateReport, Origin};
use controlplane::pipeline::{
    failed_prefilter_report, gate_init_error, input_gate_plan, llm_kind, output_gate_plan,
    skipped_prefilter_report, tokens_saved_estimate, CheckRun, CheckStep, GateSwitch, LlmKind,
};
use controlplane::verdict::{BlockReason, Decision, GateId, Verdict};

fn pass(gate: GateId) -> GateReport<f32> {
    GateReport { gate, verdict: Verdict::Pass, origin: Origin::Evaluated }
}

fn block(gate: GateId) -> GateReport<f32> {
    GateReport {
        gate,
        verdict: Verdict::Block { reason: BlockReason::PromptAttack { score: 0.98, threshold: 0.85 } },
        origin: Origin::Evaluated,
    }
}

fn start_run(dry_run: bool, pre: GateReport<f32>) -> CheckRun<f32> {
    CheckRun::start(dry_run, pre.verdict, pre.origin)
}

fn stage(dry_run: bool, reports: Vec<GateReport<f32>>) -> FanOutSummary<f32> {
    let expected: Vec<GateId> = reports.iter().map(|r| r.gate).collect();
    let mut s: FanOut<f32> = FanOut::new(dry_run, expected);
    for r in reports {
        if s.record(r) {
            break;
        }
    }
    s.into_summary()
}

#[test]
fn clean_request_is_allowed_with_response() {
    let mut run: CheckRun<f32> = start_run(false, pass(GateId::Prefilter));
    assert_eq!(run.step(), CheckStep::RunInputGates);
    run.input_finished(stage(false, vec![pass(GateId::Coherence), pass(GateId::Pii)]));
    assert_eq!(run.step(), CheckStep::CallLlm);
    run.llm_finished("Here is the answer".to_string());
    assert_eq!(run.step(), CheckStep::RunOutputGates);
    run.output_finished(stage(false, vec![pass(GateId::Grounding)]));
    assert_eq!(run.step(), CheckStep::Done);
    let out = run.finish();
    assert_eq!(out.decision, Decision::Allow);
    assert_eq!(out.response.as_deref(), Some("Here is the answer"));
    assert_eq!(out.blocked_by, None);
    assert_eq!(out.gates.len(), 4);
    assert!(!out.degraded_mode);
}

#[test]
fn prefilter_block_short_circuits() {
    let run: CheckRun<f32> = start_run(
        false,
        GateReport {
            gate: GateId::Prefilter,
            verdict: Verdict::Block { reason: BlockReason::PrefilterNoise { message: "query too short".to_string() } },
            origin: Origin::Evaluated,
        },
    );
    assert_eq!(run.step(), CheckStep::Done);
    let out = run.finish();
    assert_eq!(out.decision, Decision::Block);
    assert_eq!(out.blocked_by, Some(GateId::Prefilter));
    assert_eq!(out.response, None);
    assert_eq!(out.gates.len(), 1);
}

#[test]
fn input_block_skips_the_llm() {
    let mut run: CheckRun<f32> = start_run(false, pass(GateId::Prefilter));
    run.input_finished(stage(false, vec![pass(GateId::Coherence), block(GateId::Intent), pass(GateId::Pii)]));
    assert_eq!(run.step(), CheckStep::Done);
    let out = run.finish();
    assert_eq!(out.decision, Decision::Block);
    assert_eq!(out.blocked_by, Some(GateId::Intent));
    assert_eq!(out.response, None);
    assert_eq!(out.gates.len(), 3);
    assert!(out.gates.iter().any(|g| g.verdict.is_block()));
}

#[test]
fn output_block_withholds_the_response() {
    let mut run: CheckRun<f32> = start_run(false, pass(GateId::Prefilter));
    run.input_finished(stage(false, vec![pass(GateId::Coherence)]));
    run.llm_finished("The moon is made of titanium".to_string());
    run.output_finished(stage(false, vec![block(GateId::Grounding)]));
    let out = run.finish();
    assert_eq!(out.decision, Decision::Block);
    assert_eq!(out.blocked_by, Some(GateId::Grounding));
    assert_eq!(out.response, None);
}

#[test]
fn dry_run_never_blocks_but_reports_blocks() {
    let mut run: CheckRun<f32> = start_run(true, pass(GateId::Prefilter));
    run.input_finished(stage(true, vec![block(GateId::Toxicity), pass(GateId::Intent)]));
    assert_eq!(run.step(), CheckStep::CallLlm);
    run.llm_finished("answer".to_string());
    run.output_finished(stage(true, vec![block(GateId::Grounding)]));
    let out = run.finish();
    assert_eq!(out.decision, Decision::Allow);
    assert_eq!(out.response.as_deref(), Some("answer"));
    assert_eq!(out.blocked_by, None);
    assert!(out.gates.iter().any(|g| g.verdict.is_block()));
}

#[test]
fn stage_timeout_marks_request_degraded() {
    let mut run: CheckRun<f32> = start_run(false, pass(GateId::Prefilter));
    let mut input: FanOut<f32> = FanOut::new(false, vec![GateId::Pii, GateId::Toxicity]);
    input.record(pass(GateId::Pii));
    input.expire();
    run.input_finished(input.into_summary());
    run.llm_finished("answer".to_string());
    run.output_finished(stage(false, vec![pass(GateId::Relevance)]));
    let out = run.finish();
    assert_eq!(out.decision, Decision::Allow);
    assert!(out.degraded_mode);
}

#[test]
fn failed_prefilter_passes_degraded() {
    let pre: GateReport<f32> = failed_prefilter_report("internal".to_string());
    assert!(pre.verdict.is_pass());
    assert!(pre.origin.is_degraded());
    let run: CheckRun<f32> = start_run(false, pre);
    assert_eq!(run.step(), CheckStep::RunInputGates);
    let skipped: GateReport<f32> = skipped_prefilter_report();
    assert_eq!(skipped.gate, GateId::Prefilter);
    assert!(!skipped.origin.is_degraded());
}

#[test]
fn llm_backend_selection() {
    assert_eq!(llm_kind("gemini"), LlmKind::Gemini);
    assert_eq!(llm_kind("mock"), LlmKind::Mock);
    assert_eq!(llm_kind("openai"), LlmKind::Mock);
    assert_eq!(llm_kind("Gemini"), LlmKind::Mock);
}

#[test]
fn input_gate_wiring_follows_config_and_models() {
    let on = || GateSwitch { enabled: true, available: true };
    assert_eq!(
        input_gate_plan(on(), true, on(), on()),
        vec![GateId::Coherence, GateId::Pii, GateId::Toxicity, GateId::Intent]
    );
    let missing = GateSwitch { enabled: true, available: false };
    let off = GateSwitch { enabled: false, available: true };
    assert_eq!(input_gate_plan(missing, true, off, on()), vec![GateId::Pii, GateId::Intent]);
    assert_eq!(input_gate_plan(on(), false, on(), missing), vec![GateId::Coherence, GateId::Toxicity]);
}

#[test]
fn output_gate_wiring_follows_config() {
    assert_eq!(output_gate_plan(true, true), vec![GateId::Grounding, GateId::Relevance]);
    assert_eq!(output_gate_plan(false, true), vec![GateId::Relevance]);
    assert_eq!(output_gate_plan(false, false), Vec::<GateId>::new());
}

#[test]
fn gate_init_error_message() {
    match gate_init_error("GroundingGate", "Model x missing required class 'neutral'") {
        PipelineError::Internal(m) => {
            assert_eq!(m, "GroundingGate initialization failed: Model x missing required class 'neutral'")
        }
        other => panic!("unexpected error {other:?}"),
    }
}

#[test]
fn tokens_saved_counts_words_plus_150() {
    assert_eq!(tokens_saved_estimate("Please execute __STUB_BLOCK__ immediately"), 154);
    assert_eq!(tokens_saved_estimate(""), 150);
    assert_eq!(tokens_saved_estimate("  spaced\tout \n words  "), 153);
}

#[test]
fn prefilter_is_the_first_reported_gate() {
    let mut run: CheckRun<f32> = CheckRun::start(false, Verdict::Pass, Origin::Evaluated);
    run.input_finished(stage(false, vec![pass(GateId::Coherence)]));
    run.llm_finished("answer".to_string());
    run.output_finished(stage(false, vec![pass(GateId::Grounding)]));
    let out = run.finish();
    assert_eq!(out.gates[0].gate, GateId::Prefilter);
    assert_eq!(out.gates[1].gate, GateId::Coherence);
    assert_eq!(out.gates[2].gate, GateId::Grounding);
}

#[test]
fn llm_failure_fails_the_request() {
    let mut run: CheckRun<f32> = CheckRun::start(false, Verdict::Pass, Origin::Evaluated);
    run.input_finished(stage(false, vec![pass(GateId::Coherence)]));
    assert_eq!(run.step(), CheckStep::CallLlm);
    let err = run.llm_failed(LlmError::Timeout(30000));
    assert!(matches!(err, PipelineError::Llm(LlmError::Timeout(30000))));
}
