//! Decision core of the concurrent fan-out gate executor.
//!
//! The executor runs a stage's gates concurrently; the concurrency, timers and
//! cancellation live with the caller, which feeds each completed gate (or the
//! expiry of the stage budget) to a [`FanOut`] and stops as soon as it reports
//! that the stage is finished. This module decides everything else: which
//! gates run, how a timeout or error is resolved under each gate's failure
//! policy, how a Clarify verdict is treated, when the stage stops early, and
//! what the stage reports.

use vstd::prelude::*;
use crate::verdict::{BlockReason, FailurePolicy, GateId, Verdict};
use crate::context::RequestOptions;

verus! {

/// How a recorded gate outcome came about.
#[derive(Debug, Clone)]
pub enum Origin {
    /// Evaluated by its own model or rules.
    Evaluated,
    /// Not run (disabled or skipped by the request).
    Skipped,
    /// Timed out; a fail-open policy let the request through.
    TimeoutFailOpen,
    /// Timed out; a fail-closed policy blocked the request.
    TimeoutFailClosed,
    /// Failed; a fail-open policy let the request through.
    ErrorFailOpen { error: String },
    /// Failed; a fail-closed policy blocked the request.
    ErrorFailClosed { error: String },
    /// Failed, and the caller let the request through.
    ErrorPassed { error: String },
}

impl Origin {
    /// True when the outcome is a fallback rather than a real evaluation.
    pub open spec fn spec_degraded(&self) -> bool {
        !(*self is Evaluated || *self is Skipped)
    }

    /// True when the outcome is a fallback rather than a real evaluation.
    pub fn is_degraded(&self) -> (b: bool)
        ensures
            b == self.spec_degraded(),
    {
        match self {
            Origin::Evaluated | Origin::Skipped => false,
            _ => true,
        }
    }
}

/// The executor's record of one gate: its identity, final verdict and origin.
#[derive(Debug, Clone)]
pub struct GateReport<S> {
    pub gate: GateId,
    pub verdict: Verdict<S>,
    pub origin: Origin,
}

/// What came back from running one gate under its own timeout.
#[derive(Debug, Clone)]
pub enum GateResult<S> {
    /// Finished within its timeout with this verdict.
    Completed(Verdict<S>),
    /// Did not finish within its timeout.
    TimedOut,
    /// Returned an error, described by `error`.
    Failed { error: String },
}

/// The report recorded for a gate, given what its evaluation produced.
pub open spec fn resolve_spec<S>(
    gate: GateId,
    policy: FailurePolicy,
    timeout_ms: u64,
    clarify_enabled: bool,
    result: GateResult<S>,
) -> GateReport<S> {
    match result {
        GateResult::Completed(verdict) => GateReport {
            gate,
            verdict: match verdict {
                Verdict::Clarify { hint } => if clarify_enabled {
                    Verdict::Clarify { hint }
                } else {
                    Verdict::Block { reason: BlockReason::ClarificationRequired { hint } }
                },
                other => other,
            },
            origin: Origin::Evaluated,
        },
        GateResult::TimedOut => match policy {
            FailurePolicy::Open => GateReport { gate, verdict: Verdict::Pass, origin: Origin::TimeoutFailOpen },
            FailurePolicy::Closed => GateReport {
                gate,
                verdict: Verdict::Block { reason: BlockReason::Timeout { gate, timeout_ms } },
                origin: Origin::TimeoutFailClosed,
            },
        },
        GateResult::Failed { error } => match policy {
            FailurePolicy::Open => GateReport {
                gate,
                verdict: Verdict::Pass,
                origin: Origin::ErrorFailOpen { error },
            },
            FailurePolicy::Closed => GateReport {
                gate,
                verdict: Verdict::Block { reason: BlockReason::GateError { gate, message: error } },
                origin: Origin::ErrorFailClosed { error },
            },
        },
    }
}

/// Indices of those gates that run in a stage: those the request does not skip, in order.
pub open spec fn active_indices(ids: Seq<GateId>, skip: Seq<GateId>) -> Seq<usize>
    decreases ids.len(),
{
    if ids.len() == 0 {
        Seq::empty()
    } else {
        let rest = active_indices(ids.drop_last(), skip);
        if skip.contains(ids.last()) {
            rest
        } else {
            rest.push((ids.len() - 1) as usize)
        }
    }
}

/// The executor of a stage's gates. The concurrent fan-out itself (timers,
/// cancellation) belongs to the caller; these are its decisions.
pub struct GateExecutor;

impl GateExecutor {
    /// Resolves a gate's evaluation result into the report the stage records:
    /// a completed verdict is kept (a Clarify becomes a Block while clarification
    /// is disabled); a timeout or error becomes Pass under a fail-open policy and
    /// Block under a fail-closed one, and is marked as degraded.
    pub fn resolve_gate_result<S>(
        gate: GateId,
        policy: FailurePolicy,
        timeout_ms: u64,
        clarify_enabled: bool,
        result: GateResult<S>,
    ) -> (report: GateReport<S>)
        ensures
            report == resolve_spec(gate, policy, timeout_ms, clarify_enabled, result),
    {
        match result {
            GateResult::Completed(verdict) => {
                let verdict = match verdict {
                    Verdict::Clarify { hint } => if clarify_enabled {
                        Verdict::Clarify { hint }
                    } else {
                        Verdict::Block { reason: BlockReason::ClarificationRequired { hint } }
                    },
                    other => other,
                };
                GateReport { gate, verdict, origin: Origin::Evaluated }
            },
            GateResult::TimedOut => match policy {
                FailurePolicy::Open => GateReport { gate, verdict: Verdict::Pass, origin: Origin::TimeoutFailOpen },
                FailurePolicy::Closed => GateReport {
                    gate,
                    verdict: Verdict::Block { reason: BlockReason::Timeout { gate, timeout_ms } },
                    origin: Origin::TimeoutFailClosed,
                },
            },
            GateResult::Failed { error } => match policy {
                FailurePolicy::Open => GateReport {
                    gate,
                    verdict: Verdict::Pass,
                    origin: Origin::ErrorFailOpen { error },
                },
                FailurePolicy::Closed => {
                    let message = error.clone();
                    GateReport {
                        gate,
                        verdict: Verdict::Block { reason: BlockReason::GateError { gate, message } },
                        origin: Origin::ErrorFailClosed { error },
                    }
                },
            },
        }
    }

    /// Selects those gates of a stage that the request does not ask to skip.
    pub fn select_active_gates(ids: &Vec<GateId>, options: &RequestOptions) -> (active: Vec<usize>)
        ensures
            active@ == active_indices(ids@, options.skip_gates@),
    {
        let mut active: Vec<usize> = Vec::new();
        let mut i: usize = 0;
        while i < ids.len()
            invariant
                i <= ids@.len(),
                active@ == active_indices(ids@.take(i as int), options.skip_gates@),
            decreases ids@.len() - i,
        {
            proof {
                assert(ids@.take(i as int + 1).drop_last() =~= ids@.take(i as int));
            }
            if !options.skips(ids[i]) {
                active.push(i);
            }
            i = i + 1;
        }
        proof {
            assert(ids@.take(ids@.len() as int) =~= ids@);
        }
        active
    }
}

/// An event of a running stage.
#[derive(Debug, Clone)]
pub enum FanOutEvent<S> {
    /// A gate finished and was resolved into this report.
    Finished(GateReport<S>),
    /// The stage's wall-clock budget ran out.
    BudgetExpired,
}

/// Model of a stage: (recorded reports, blocking gate, degraded, finished).
pub type FanOutModel<S> = (Seq<GateReport<S>>, Option<GateId>, bool, bool);

/// One step of a stage. After the stage has finished, events change nothing.
/// A finished gate is recorded; a Block (outside dry-run mode) names the
/// blocking gate and finishes the stage; an expired budget marks the stage
/// degraded and finishes it.
pub open spec fn fan_out_step<S>(dry_run: bool, st: FanOutModel<S>, ev: FanOutEvent<S>) -> FanOutModel<S> {
    if st.3 {
        st
    } else {
        match ev {
            FanOutEvent::Finished(r) => {
                let outs = st.0.push(r);
                let degraded = st.2 || r.origin.spec_degraded();
                if r.verdict is Block && !dry_run {
                    (outs, Some(r.gate), degraded, true)
                } else {
                    (outs, st.1, degraded, false)
                }
            },
            FanOutEvent::BudgetExpired => (st.0, st.1, true, true),
        }
    }
}

/// The state of a stage after the given events, from an empty start.
pub open spec fn fan_out_run<S>(dry_run: bool, events: Seq<FanOutEvent<S>>) -> FanOutModel<S>
    decreases events.len(),
{
    if events.len() == 0 {
        (Seq::empty(), None, false, false)
    } else {
        fan_out_step(dry_run, fan_out_run(dry_run, events.drop_last()), events.last())
    }
}

/// Aggregated result of a stage.
#[derive(Debug, Clone)]
pub struct FanOutSummary<S> {
    /// Reports recorded for the evaluated gates, in completion order.
    pub outcomes: Vec<GateReport<S>>,
    /// Which gate triggered a block, if any.
    pub blocked_by: Option<GateId>,
    /// Whether any gate fell back to its failure policy or the budget ran out.
    pub degraded_mode: bool,
}

impl<S> FanOutSummary<S> {
    /// The summary of a stage in which no gate ran.
    pub fn empty() -> (r: Self)
        ensures
            r.outcomes@ == Seq::<GateReport<S>>::empty(),
            r.blocked_by is None,
            !r.degraded_mode,
    {
        FanOutSummary { outcomes: Vec::new(), blocked_by: None, degraded_mode: false }
    }
}

/// The gates of a stage that run: those the request does not skip, in order.
pub open spec fn stage_gates(ids: Seq<GateId>, skip: Seq<GateId>) -> Seq<GateId> {
    ids.filter(|g: GateId| !skip.contains(g))
}

/// Whether some recorded report belongs to `gate`.
pub open spec fn gate_recorded<S>(outs: Seq<GateReport<S>>, gate: GateId) -> bool {
    exists|i: int| 0 <= i < outs.len() && #[trigger] outs[i].gate == gate
}

/// Every recorded report belongs to an awaited gate, and no gate is recorded twice.
pub open spec fn recorded_once_each<S>(expected: Seq<GateId>, outs: Seq<GateReport<S>>) -> bool {
    &&& forall|i: int| 0 <= i < outs.len() ==> expected.contains(#[trigger] outs[i].gate)
    &&& forall|i: int, j: int| 0 <= i < j < outs.len() ==> #[trigger] outs[i].gate != #[trigger] outs[j].gate
}

/// The running state of a stage, fed one event at a time. It awaits one
/// report from each of the stage's running gates; a report from any other
/// gate, or a second report from the same gate, is not an event of the stage.
pub struct FanOut<S> {
    dry_run: bool,
    expected: Vec<GateId>,
    outcomes: Vec<GateReport<S>>,
    blocked_by: Option<GateId>,
    degraded_mode: bool,
    finished: bool,
    history: Ghost<Seq<FanOutEvent<S>>>,
}

impl<S> FanOut<S> {
    /// The events fed to the stage so far.
    pub closed spec fn history(&self) -> Seq<FanOutEvent<S>> {
        self.history@
    }

    /// Whether the stage runs in dry-run mode.
    pub closed spec fn spec_dry_run(&self) -> bool {
        self.dry_run
    }

    /// The gates whose reports the stage awaits.
    pub closed spec fn spec_expected(&self) -> Seq<GateId> {
        self.expected@
    }

    /// The state agrees with the model of the events fed so far, and only
    /// awaited gates were recorded, each once.
    pub closed spec fn wf(&self) -> bool {
        &&& (self.outcomes@, self.blocked_by, self.degraded_mode, self.finished)
            == fan_out_run(self.dry_run, self.history@)
        &&& recorded_once_each(self.expected@, self.outcomes@)
    }

    /// The model state of the stage.
    pub open spec fn model(&self) -> FanOutModel<S> {
        fan_out_run(self.spec_dry_run(), self.history())
    }

    /// Whether the stage awaits a report from `gate`: it is one of the
    /// stage's gates and has not been recorded yet.
    pub open spec fn spec_awaits(&self, gate: GateId) -> bool {
        self.spec_expected().contains(gate) && !gate_recorded(self.model().0, gate)
    }

    /// Starts a stage that awaits reports from the `expected` gates.
    pub fn new(dry_run: bool, expected: Vec<GateId>) -> (r: Self)
        ensures
            r.wf(),
            r.history() == Seq::<FanOutEvent<S>>::empty(),
            r.spec_dry_run() == dry_run,
            r.spec_expected() == expected@,
    {
        FanOut {
            dry_run,
            expected,
            outcomes: Vec::new(),
            blocked_by: None,
            degraded_mode: false,
            finished: false,
            history: Ghost(Seq::empty()),
        }
    }

    /// Starts a stage of the gates `ids` under the request's options: it
    /// awaits the gates that the request does not skip.
    pub fn for_stage(dry_run: bool, ids: &Vec<GateId>, options: &RequestOptions) -> (r: Self)
        ensures
            r.wf(),
            r.history() == Seq::<FanOutEvent<S>>::empty(),
            r.spec_dry_run() == dry_run,
            r.spec_expected() == stage_gates(ids@, options.skip_gates@),
    {
        let ghost skip = options.skip_gates@;
        let mut expected: Vec<GateId> = Vec::new();
        let mut i: usize = 0;
        while i < ids.len()
            invariant
                i <= ids@.len(),
                skip == options.skip_gates@,
                expected@ == stage_gates(ids@.take(i as int), skip),
            decreases ids@.len() - i,
        {
            proof {
                assert(ids@.take(i as int + 1).drop_last() =~= ids@.take(i as int));
                assert(ids@.take(i as int + 1).last() == ids@[i as int]);
                reveal_with_fuel(Seq::filter, 1);
            }
            if !options.skips(ids[i]) {
                expected.push(ids[i]);
            }
            i = i + 1;
        }
        proof {
            assert(ids@.take(ids@.len() as int) =~= ids@);
        }
        Self::new(dry_run, expected)
    }

    /// Whether the stage awaits a report from `gate`.
    pub fn awaits(&self, gate: GateId) -> (b: bool)
        requires
            self.wf(),
        ensures
            b == self.spec_awaits(gate),
    {
        let mut listed = false;
        let mut i: usize = 0;
        while i < self.expected.len()
            invariant
                i <= self.expected@.len(),
                listed == (exists|k: int| 0 <= k < i && self.expected@[k] == gate),
            decreases self.expected@.len() - i,
        {
            if self.expected[i] == gate {
                listed = true;
            }
            i = i + 1;
        }
        if !listed {
            return false;
        }
        let mut j: usize = 0;
        while j < self.outcomes.len()
            invariant
                self.wf(),
                j <= self.outcomes@.len(),
                forall|k: int| 0 <= k < j ==> self.outcomes@[k].gate != gate,
            decreases self.outcomes@.len() - j,
        {
            if self.outcomes[j].gate == gate {
                proof {
                    assert(self.model().0[j as int].gate == gate);
                }
                return false;
            }
            j = j + 1;
        }
        true
    }

    /// True once the stage has stopped (a block outside dry-run mode, or an expired budget).
    pub fn is_finished(&self) -> (b: bool)
        requires
            self.wf(),
        ensures
            b == self.model().3,
    {
        self.finished
    }

    /// Records a finished gate; returns whether the stage is now finished. A
    /// report from a gate that is not awaited changes nothing.
    pub fn record(&mut self, report: GateReport<S>) -> (finished: bool)
        requires
            old(self).wf(),
        ensures
            final(self).wf(),
            final(self).spec_dry_run() == old(self).spec_dry_run(),
            final(self).spec_expected() == old(self).spec_expected(),
            old(self).spec_awaits(report.gate)
                ==> final(self).history() == old(self).history().push(FanOutEvent::Finished(report)),
            !old(self).spec_awaits(report.gate) ==> final(self).history() == old(self).history(),
            finished == final(self).model().3,
    {
        if !self.awaits(report.gate) {
            return self.finished;
        }
        let ghost ev = FanOutEvent::Finished(report);
        let ghost old_history = self.history@;
        proof {
            assert(old_history.push(ev).drop_last() =~= old_history);
        }
        if self.finished {
            self.history = Ghost(old_history.push(ev));
            return true;
        }
        let ghost old_outs = self.outcomes@;
        let gate = report.gate;
        let is_block = report.verdict.is_block();
        let degraded = report.origin.is_degraded();
        self.outcomes.push(report);
        proof {
            assert forall|i: int| 0 <= i < old_outs.len() implies old_outs[i].gate != gate by {
                if old_outs[i].gate == gate {
                    assert(gate_recorded(old_outs, gate));
                }
            }
            assert(self.outcomes@[old_outs.len() as int] == report);
        }
        self.degraded_mode = self.degraded_mode || degraded;
        if is_block && !self.dry_run {
            self.blocked_by = Some(gate);
            self.finished = true;
        }
        self.history = Ghost(old_history.push(ev));
        self.finished
    }

    /// Records that the stage budget ran out: the stage is degraded and finished.
    pub fn expire(&mut self)
        requires
            old(self).wf(),
        ensures
            final(self).wf(),
            final(self).spec_dry_run() == old(self).spec_dry_run(),
            final(self).spec_expected() == old(self).spec_expected(),
            final(self).history() == old(self).history().push(FanOutEvent::BudgetExpired),
    {
        let ghost ev: FanOutEvent<S> = FanOutEvent::BudgetExpired;
        let ghost old_history = self.history@;
        proof {
            assert(old_history.push(ev).drop_last() =~= old_history);
        }
        if !self.finished {
            self.degraded_mode = true;
            self.finished = true;
        }
        self.history = Ghost(old_history.push(ev));
    }

    /// The stage's summary.
    pub fn into_summary(self) -> (r: FanOutSummary<S>)
        requires
            self.wf(),
        ensures
            r.outcomes@ == self.model().0,
            r.blocked_by == self.model().1,
            r.degraded_mode == self.model().2,
    {
        FanOutSummary {
            outcomes: self.outcomes,
            blocked_by: self.blocked_by,
            degraded_mode: self.degraded_mode,
        }
    }
}

/// A stage records only reports of the gates it awaits, each gate at most
/// once; a stage that awaits no gate records nothing and reports no blocking
/// gate.
pub proof fn law_stage_records_awaited_gates_once<S>(stage: FanOut<S>)
    requires
        stage.wf(),
    ensures
        recorded_once_each(stage.spec_expected(), stage.model().0),
        stage.spec_expected().len() == 0 ==> stage.model().0.len() == 0 && stage.model().1 is None,
{
    if stage.spec_expected().len() == 0 && stage.model().0.len() > 0 {
        assert(stage.spec_expected().contains(stage.model().0[0].gate));
    }
    if stage.spec_dry_run() {
        law_dry_run_stage_never_blocks(stage.history());
    } else {
        law_first_block_stops_stage(stage.history());
    }
}

/// No gate that the request skips is ever recorded by its stage.
pub proof fn law_skipped_gates_never_recorded<S>(stage: FanOut<S>, ids: Seq<GateId>, skip: Seq<GateId>)
    requires
        stage.wf(),
        stage.spec_expected() == stage_gates(ids, skip),
    ensures
        forall|i: int| 0 <= i < stage.model().0.len() ==> !skip.contains(#[trigger] stage.model().0[i].gate),
{
    law_stage_records_awaited_gates_once(stage);
    let pred = |g: GateId| !skip.contains(g);
    ids.filter_lemma(pred);
    assert forall|i: int| 0 <= i < stage.model().0.len() implies !skip.contains(#[trigger] stage.model().0[i].gate) by {
        let g = stage.model().0[i].gate;
        assert(stage_gates(ids, skip).contains(g));
        let k = choose|k: int| 0 <= k < ids.filter(pred).len() && ids.filter(pred)[k] == g;
        assert(pred(ids.filter(pred)[k]));
    }
}

} // verus!

verus! {

/// A gate that times out or fails under a fail-open policy lets the request
/// through, and its outcome is marked degraded.
pub proof fn law_fail_open_passes<S>(
    gate: GateId,
    timeout_ms: u64,
    clarify_enabled: bool,
    result: GateResult<S>,
)
    requires
        !(result is Completed),
    ensures
        resolve_spec(gate, FailurePolicy::Open, timeout_ms, clarify_enabled, result).verdict is Pass,
        resolve_spec(gate, FailurePolicy::Open, timeout_ms, clarify_enabled, result).origin.spec_degraded(),
{
}

/// A gate that times out or fails under a fail-closed policy blocks the
/// request, and its outcome is marked degraded.
pub proof fn law_fail_closed_blocks<S>(
    gate: GateId,
    timeout_ms: u64,
    clarify_enabled: bool,
    result: GateResult<S>,
)
    requires
        !(result is Completed),
    ensures
        resolve_spec(gate, FailurePolicy::Closed, timeout_ms, clarify_enabled, result).verdict is Block,
        resolve_spec(gate, FailurePolicy::Closed, timeout_ms, clarify_enabled, result).origin.spec_degraded(),
{
}

/// The Block verdict that stands for a Clarify while clarification is disabled.
pub open spec fn clarification_block<S>(hint: String) -> Verdict<S> {
    Verdict::Block { reason: BlockReason::ClarificationRequired { hint } }
}

/// While clarification is disabled no recorded verdict is a Clarify.
pub proof fn law_clarify_disabled_never_clarifies<S>(
    gate: GateId,
    policy: FailurePolicy,
    timeout_ms: u64,
    result: GateResult<S>,
)
    ensures
        !(resolve_spec(gate, policy, timeout_ms, false, result).verdict is Clarify),
{
}

/// While clarification is disabled a Clarify from a gate is recorded as a
/// Block carrying the same hint.
pub proof fn law_clarify_becomes_block<S>(
    gate: GateId,
    policy: FailurePolicy,
    timeout_ms: u64,
    hint: String,
)
    ensures
        completed_report::<S>(gate, policy, timeout_ms, false, clarify_verdict(hint)).verdict
            == clarification_block::<S>(hint),
{
}

/// A Clarify verdict with the given hint.
pub open spec fn clarify_verdict<S>(hint: String) -> Verdict<S> {
    Verdict::Clarify { hint }
}

/// The report for a gate that completed with `verdict`.
pub open spec fn completed_report<S>(
    gate: GateId,
    policy: FailurePolicy,
    timeout_ms: u64,
    clarify_enabled: bool,
    verdict: Verdict<S>,
) -> GateReport<S> {
    resolve_spec(gate, policy, timeout_ms, clarify_enabled, GateResult::Completed(verdict))
}

/// A completed evaluation keeps its verdict (apart from the Clarify mapping)
/// and is never marked degraded.
pub proof fn law_completed_is_not_degraded<S>(
    gate: GateId,
    policy: FailurePolicy,
    timeout_ms: u64,
    clarify_enabled: bool,
    verdict: Verdict<S>,
)
    ensures
        !completed_report(gate, policy, timeout_ms, clarify_enabled, verdict).origin.spec_degraded(),
        !(verdict is Clarify) ==> (completed_report(gate, policy, timeout_ms, clarify_enabled, verdict).verdict == verdict),
{
}

/// The block-related shape of a stage in non-dry-run mode.
pub open spec fn fan_out_block_shape<S>(st: FanOutModel<S>) -> bool {
    &&& forall|i: int| 0 <= i < st.0.len() - 1 ==> !(#[trigger] st.0[i].verdict is Block)
    &&& (st.1 matches Some(g) ==> st.3 && st.0.len() > 0 && st.0.last().gate == g && st.0.last().verdict is Block)
    &&& (st.0.len() > 0 && st.0.last().verdict is Block ==> st.1 == Some(st.0.last().gate))
}

/// In dry-run mode a stage never reports a blocking gate.
pub proof fn law_dry_run_stage_never_blocks<S>(events: Seq<FanOutEvent<S>>)
    ensures
        fan_out_run(true, events).1 is None,
    decreases events.len(),
{
    if events.len() > 0 {
        law_dry_run_stage_never_blocks(events.drop_last());
    }
}

/// Outside dry-run mode the first Block stops the stage: it is the last
/// recorded outcome, no earlier outcome is a Block, and its own gate is the one
/// reported as blocking; a reported blocking gate always comes with a
/// finished stage.
pub proof fn law_first_block_stops_stage<S>(events: Seq<FanOutEvent<S>>)
    ensures
        fan_out_block_shape(fan_out_run(false, events)),
    decreases events.len(),
{
    if events.len() > 0 {
        law_first_block_stops_stage(events.drop_last());
        let prev = fan_out_run(false, events.drop_last());
        let st = fan_out_run(false, events);
        if !prev.3 {
            if let FanOutEvent::Finished(r) = events.last() {
                assert forall|i: int| 0 <= i < st.0.len() - 1 implies !(#[trigger] st.0[i].verdict is Block) by {
                    assert(st.0[i] == prev.0[i]);
                    if prev.0.len() > 0 && i == prev.0.len() - 1 {
                        assert(prev.1 is None);
                    }
                }
            }
        }
    }
}

/// A stage names a blocking gate exactly when it runs outside dry-run mode
/// and some recorded outcome is a Block; that outcome is then the last one
/// and belongs to the named gate.
pub proof fn law_blocking_gate_iff_block_recorded<S>(dry_run: bool, events: Seq<FanOutEvent<S>>)
    ensures
        fan_out_run(dry_run, events).1 is Some <==> (!dry_run && exists|i: int|
            0 <= i < fan_out_run(dry_run, events).0.len() && #[trigger] fan_out_run(dry_run, events).0[i].verdict is Block),
        fan_out_run(dry_run, events).1 matches Some(g) ==> fan_out_run(dry_run, events).0.last().gate == g
            && fan_out_run(dry_run, events).0.last().verdict is Block,
{
    let st = fan_out_run(dry_run, events);
    if dry_run {
        law_dry_run_stage_never_blocks(events);
    } else {
        law_first_block_stops_stage(events);
        if exists|i: int| 0 <= i < st.0.len() && #[trigger] st.0[i].verdict is Block {
            let i = choose|i: int| 0 <= i < st.0.len() && #[trigger] st.0[i].verdict is Block;
            if i < st.0.len() - 1 {
                assert(!(st.0[i].verdict is Block));
            }
            assert(st.0.last() == st.0[i]);
        }
        if st.1 is Some {
            assert(st.0[st.0.len() - 1].verdict is Block);
        }
    }
}

/// Whether the event sequence contains an expiry of the stage budget.
pub open spec fn has_expiry<S>(events: Seq<FanOutEvent<S>>) -> bool {
    exists|i: int| 0 <= i < events.len() && #[trigger] events[i] is BudgetExpired
}

/// Whether some recorded outcome is a fallback.
pub open spec fn some_degraded<S>(outs: Seq<GateReport<S>>) -> bool {
    exists|i: int| 0 <= i < outs.len() && #[trigger] outs[i].origin.spec_degraded()
}

/// A stage is degraded exactly when one of its recorded outcomes is a
/// fallback, or its budget ran out.
pub proof fn law_degraded_reflects_fallbacks<S>(dry_run: bool, events: Seq<FanOutEvent<S>>)
    ensures
        some_degraded(fan_out_run(dry_run, events).0) ==> fan_out_run(dry_run, events).2,
        fan_out_run(dry_run, events).2 ==> some_degraded(fan_out_run(dry_run, events).0) || has_expiry(events),
        !has_expiry(events) ==> (fan_out_run(dry_run, events).2 == some_degraded(fan_out_run(dry_run, events).0)),
    decreases events.len(),
{
    if events.len() > 0 {
        let pre = events.drop_last();
        law_degraded_reflects_fallbacks(dry_run, pre);
        let prev = fan_out_run(dry_run, pre);
        let st = fan_out_run(dry_run, events);
        if has_expiry(pre) {
            let i = choose|i: int| 0 <= i < pre.len() && #[trigger] pre[i] is BudgetExpired;
            assert(events[i] is BudgetExpired);
        }
        if !has_expiry(events) {
            assert forall|i: int| 0 <= i < pre.len() implies !(#[trigger] pre[i] is BudgetExpired) by {
                assert(events[i] == pre[i]);
            }
            assert(!(events[events.len() - 1] is BudgetExpired));
        }
        if some_degraded(prev.0) {
            let i = choose|i: int| 0 <= i < prev.0.len() && #[trigger] prev.0[i].origin.spec_degraded();
            if !prev.3 {
                if let FanOutEvent::Finished(r) = events.last() {
                    assert(st.0[i] == prev.0[i]);
                }
            }
        }
        if !prev.3 {
            if let FanOutEvent::Finished(r) = events.last() {
                if some_degraded(st.0) {
                    let i = choose|i: int| 0 <= i < st.0.len() && #[trigger] st.0[i].origin.spec_degraded();
                    if i < prev.0.len() {
                        assert(st.0[i] == prev.0[i]);
                    }
                }
                if r.origin.spec_degraded() {
                    assert(st.0[st.0.len() - 1].origin.spec_degraded());
                }
            } else {
                assert(events[events.len() - 1] is BudgetExpired);
            }
        }
    }
}

/// The reports carried by a sequence of finish events.
pub open spec fn reports_of<S>(events: Seq<FanOutEvent<S>>) -> Seq<GateReport<S>> {
    events.map_values(|e: FanOutEvent<S>| e->Finished_0)
}

/// When the budget never runs out and no gate blocks (or the stage runs in
/// dry-run mode), every finished gate is recorded, in completion order, and
/// the stage is not cut short.
pub proof fn law_no_block_records_every_gate<S>(dry_run: bool, events: Seq<FanOutEvent<S>>)
    requires
        forall|i: int| 0 <= i < events.len() ==> #[trigger] events[i] is Finished,
        !dry_run ==> forall|i: int| 0 <= i < events.len() ==> !(#[trigger] events[i]->Finished_0.verdict is Block),
    ensures
        fan_out_run(dry_run, events).0 == reports_of(events),
        !fan_out_run(dry_run, events).3,
    decreases events.len(),
{
    if events.len() > 0 {
        let pre = events.drop_last();
        assert forall|i: int| 0 <= i < pre.len() implies #[trigger] pre[i] is Finished by {
            assert(pre[i] == events[i]);
        }
        assert forall|i: int| !dry_run && 0 <= i < pre.len() implies !(#[trigger] pre[i]->Finished_0.verdict is Block) by {
            assert(pre[i] == events[i]);
        }
        law_no_block_records_every_gate(dry_run, pre);
        assert(events[events.len() - 1] is Finished);
        assert(reports_of(events) =~= reports_of(pre).push(events.last()->Finished_0));
    }
}

} // verus!
