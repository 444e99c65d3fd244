use controlplane::context::RequestOptions;
use controlplane::executor::{
    FanOut, FanOutSummary, GateExecutor, GateReport, GateResult, Origin,
};
use controlplane::verdict::{BlockReason, FailurePolicy, GateId, Verdict};

fn pass_report(gate: GateId) -> GateReport<f32> {
    GateReport { gate, verdict: Verdict::Pass, origin: Origin::Evaluated }
}

fn block_report(gate: GateId) -> GateReport<f32> {
    GateReport {
        gate,
        verdict: Verdict::Block { reason: BlockReason::ToxicContent { score: 0.95, threshold: 0.7 } },
        origin: Origin::Evaluated,
    }
}

#[test]
fn timeout_fail_open_passes_and_is_degraded() {
    let r: GateReport<f32> =
        GateExecutor::resolve_gate_result(GateId::Coherence, FailurePolicy::Open, 40, false, GateResult::TimedOut);
    assert_eq!(r.gate, GateId::Coherence);
    assert!(r.verdict.is_pass());
    assert!(matches!(r.origin, Origin::TimeoutFailOpen));
    assert!(r.origin.is_degraded());
}

#[test]
fn timeout_fail_closed_blocks_with_timeout_reason() {
    let r: GateReport<f32> =
        GateExecutor::resolve_gate_result(GateId::Pii, FailurePolicy::Closed, 40, false, GateResult::TimedOut);
    match r.verdict {
        Verdict::Block { reason: BlockReason::Timeout { gate, timeout_ms } } => {
            assert_eq!(gate, GateId::Pii);
            assert_eq!(timeout_ms, 40);
        }
        other => panic!("unexpected verdict {other:?}"),
    }
    assert!(matches!(r.origin, Origin::TimeoutFailClosed));
    assert!(r.origin.is_degraded());
}

#[test]
fn error_fail_closed_blocks_with_message() {
    let r: GateReport<f32> = GateExecutor::resolve_gate_result(
        GateId::Toxicity,
        FailurePolicy::Closed,
        75,
        false,
        GateResult::Failed { error: "boom".to_string() },
    );
    match &r.verdict {
        Verdict::Block { reason: BlockReason::GateError { gate, message } } => {
            assert_eq!(*gate, GateId::Toxicity);
            assert_eq!(message, "boom");
        }
        other => panic!("unexpected verdict {other:?}"),
    }
    match &r.origin {
        Origin::ErrorFailClosed { error } => assert_eq!(error, "boom"),
        other => panic!("unexpected origin {other:?}"),
    }
}

#[test]
fn error_fail_open_passes() {
    let r: GateReport<f32> = GateExecutor::resolve_gate_result(
        GateId::Intent,
        FailurePolicy::Open,
        75,
        false,
        GateResult::Failed { error: "model unavailable".to_string() },
    );
    assert!(r.verdict.is_pass());
    match &r.origin {
        Origin::ErrorFailOpen { error } => assert_eq!(error, "model unavailable"),
        other => panic!("unexpected origin {other:?}"),
    }
}

#[test]
fn clarify_becomes_block_while_disabled() {
    let r: GateReport<f32> = GateExecutor::resolve_gate_result(
        GateId::Intent,
        FailurePolicy::Open,
        75,
        false,
        GateResult::Completed(Verdict::Clarify { hint: "which account?".to_string() }),
    );
    match &r.verdict {
        Verdict::Block { reason: BlockReason::ClarificationRequired { hint } } => assert_eq!(hint, "which account?"),
        other => panic!("unexpected verdict {other:?}"),
    }
    assert!(!r.origin.is_degraded());
}

#[test]
fn clarify_kept_when_enabled() {
    let r: GateReport<f32> = GateExecutor::resolve_gate_result(
        GateId::Intent,
        FailurePolicy::Open,
        75,
        true,
        GateResult::Completed(Verdict::Clarify { hint: "which account?".to_string() }),
    );
    assert!(r.verdict.is_clarify());
}

#[test]
fn completed_verdict_is_kept() {
    let r: GateReport<f32> = GateExecutor::resolve_gate_result(
        GateId::Coherence,
        FailurePolicy::Closed,
        40,
        false,
        GateResult::Completed(Verdict::Pass),
    );
    assert!(r.verdict.is_pass());
    assert!(matches!(r.origin, Origin::Evaluated));
}

#[test]
fn skipped_gates_are_not_selected() {
    let ids = vec![GateId::Coherence, GateId::Pii, GateId::Toxicity, GateId::Intent];
    let options = RequestOptions { skip_gates: vec![GateId::Pii, GateId::Intent], dry_run: false };
    assert_eq!(GateExecutor::select_active_gates(&ids, &options), vec![0, 2]);
    let none = RequestOptions::default();
    assert_eq!(GateExecutor::select_active_gates(&ids, &none), vec![0, 1, 2, 3]);
}

#[test]
fn first_block_finishes_the_stage() {
    let mut stage: FanOut<f32> = FanOut::new(false, vec![GateId::Coherence, GateId::Pii, GateId::Toxicity, GateId::Intent]);
    assert!(!stage.record(pass_report(GateId::Coherence)));
    assert!(stage.record(block_report(GateId::Toxicity)));
    assert!(stage.is_finished());
    // Events after the stage finished change nothing.
    assert!(stage.record(pass_report(GateId::Intent)));
    let summary = stage.into_summary();
    assert_eq!(summary.outcomes.len(), 2);
    assert_eq!(summary.blocked_by, Some(GateId::Toxicity));
    assert!(!summary.degraded_mode);
}

#[test]
fn dry_run_stage_records_blocks_without_stopping() {
    let mut stage: FanOut<f32> = FanOut::new(true, vec![GateId::Coherence, GateId::Pii, GateId::Toxicity, GateId::Intent]);
    assert!(!stage.record(block_report(GateId::Toxicity)));
    assert!(!stage.record(pass_report(GateId::Intent)));
    let summary = stage.into_summary();
    assert_eq!(summary.outcomes.len(), 2);
    assert_eq!(summary.blocked_by, None);
    assert!(summary.outcomes[0].verdict.is_block());
}

#[test]
fn expired_budget_degrades_and_finishes() {
    let mut stage: FanOut<f32> = FanOut::new(false, vec![GateId::Coherence, GateId::Pii, GateId::Toxicity, GateId::Intent]);
    assert!(!stage.record(pass_report(GateId::Coherence)));
    stage.expire();
    assert!(stage.is_finished());
    let summary = stage.into_summary();
    assert_eq!(summary.outcomes.len(), 1);
    assert!(summary.degraded_mode);
    assert_eq!(summary.blocked_by, None);
}

#[test]
fn fallback_outcome_marks_stage_degraded() {
    let mut stage: FanOut<f32> = FanOut::new(false, vec![GateId::Coherence, GateId::Pii, GateId::Toxicity, GateId::Intent]);
    let fallback =
        GateExecutor::resolve_gate_result(GateId::Coherence, FailurePolicy::Open, 40, false, GateResult::TimedOut);
    assert!(!stage.record(fallback));
    let summary = stage.into_summary();
    assert!(summary.degraded_mode);
    assert_eq!(summary.blocked_by, None);
}

#[test]
fn empty_stage_summary() {
    let summary: FanOutSummary<f32> = FanOutSummary::empty();
    assert!(summary.outcomes.is_empty());
    assert_eq!(summary.blocked_by, None);
    assert!(!summary.degraded_mode);
}

#[test]
fn stage_ignores_reports_of_gates_it_does_not_await() {
    let ids = vec![GateId::Coherence, GateId::Pii, GateId::Toxicity];
    let options = RequestOptions { skip_gates: vec![GateId::Pii], dry_run: false };
    let mut stage: FanOut<f32> = FanOut::for_stage(false, &ids, &options);
    assert!(stage.awaits(GateId::Coherence));
    assert!(!stage.awaits(GateId::Pii));
    assert!(!stage.awaits(GateId::Intent));
    // A skipped gate's report, even a Block, is not an event of the stage.
    assert!(!stage.record(block_report(GateId::Pii)));
    assert!(!stage.record(pass_report(GateId::Coherence)));
    assert!(!stage.awaits(GateId::Coherence));
    // A second report from the same gate is ignored too.
    assert!(!stage.record(block_report(GateId::Coherence)));
    let summary = stage.into_summary();
    assert_eq!(summary.outcomes.len(), 1);
    assert_eq!(summary.outcomes[0].gate, GateId::Coherence);
    assert_eq!(summary.blocked_by, None);
}

#[test]
fn stage_with_every_gate_skipped_records_nothing() {
    let ids = vec![GateId::Coherence, GateId::Pii];
    let options = RequestOptions { skip_gates: vec![GateId::Pii, GateId::Coherence], dry_run: false };
    let mut stage: FanOut<f32> = FanOut::for_stage(false, &ids, &options);
    assert!(!stage.record(block_report(GateId::Coherence)));
    assert!(!stage.is_finished());
    let summary = stage.into_summary();
    assert!(summary.outcomes.is_empty());
    assert_eq!(summary.blocked_by, None);
    assert!(!summary.degraded_mode);
}
