//! Decision core of the end-to-end check: Tier 0 prefilter, Tier 1 input
//! fan-out, LLM generation and Tier 2 output fan-out.
//!
//! The caller performs each stage (running gates, calling the LLM) and hands its
//! result to a [`CheckRun`], which says what to do next and, once done, what
//! the request's decision is.

use vstd::prelude::*;
use crate::verdict::{Decision, GateId, Verdict};
use crate::executor::{FanOutSummary, GateReport, Origin};
use crate::context::RequestOptions;
use crate::error::{LlmError, PipelineError};
use crate::text::{words, word_count};
use vstd::string::StringExecFns;

verus! {

/// What the caller has to do next for a request.
#[derive(Debug, Clone, Copy, PartialEq, Eq, Structural)]
pub enum CheckStep {
    /// Run the Tier 1 input gates.
    RunInputGates,
    /// Ask the LLM for a response.
    CallLlm,
    /// Run the Tier 2 output gates on the LLM response.
    RunOutputGates,
    /// The decision is made.
    Done,
}

/// Model of a finished check: (decision, response, blocking gate, recorded gate
/// outcomes in stage order, degraded mode).
pub type CheckModel<S> = (Decision, Option<String>, Option<GateId>, Seq<GateReport<S>>, bool);

/// Whether a stage's reports stop the request.
pub open spec fn stops(dry_run: bool, blocked_by: Option<GateId>) -> bool {
    blocked_by is Some && !dry_run
}

/// Whether the prefilter's report stops the request.
pub open spec fn prefilter_stops<S>(dry_run: bool, pre: GateReport<S>) -> bool {
    pre.verdict is Block && !dry_run
}

/// Whether the LLM is asked for a response, given the stages before it.
pub open spec fn llm_invoked<S>(dry_run: bool, pre: GateReport<S>, input: FanOutSummary<S>) -> bool {
    !prefilter_stops(dry_run, pre) && !stops(dry_run, input.blocked_by)
}

/// The outcome of a check, given what each stage produced. A stage that does
/// not run (because an earlier one stopped the request) is not looked at.
pub open spec fn check_spec<S>(
    dry_run: bool,
    pre: GateReport<S>,
    input: FanOutSummary<S>,
    llm: String,
    output: FanOutSummary<S>,
) -> CheckModel<S> {
    let deg0 = pre.origin.spec_degraded();
    let deg1 = deg0 || input.degraded_mode;
    let deg2 = deg1 || output.degraded_mode;
    let g0 = seq![pre];
    let g1 = g0 + input.outcomes@;
    let g2 = g1 + output.outcomes@;
    if prefilter_stops(dry_run, pre) {
        (Decision::Block, None, Some(pre.gate), g0, deg0)
    } else if stops(dry_run, input.blocked_by) {
        (Decision::Block, None, input.blocked_by, g1, deg1)
    } else if stops(dry_run, output.blocked_by) {
        (Decision::Block, None, output.blocked_by, g2, deg2)
    } else {
        (Decision::Allow, Some(llm), None, g2, deg2)
    }
}

/// The decision of a request and what it reports.
#[derive(Debug, Clone)]
pub struct CheckOutcome<S> {
    /// The overall decision.
    pub decision: Decision,
    /// The LLM response (present only when the decision is Allow).
    pub response: Option<String>,
    /// Which gate triggered the block (present only when the decision is Block).
    pub blocked_by: Option<GateId>,
    /// Reports of all evaluated gates, in stage order.
    pub gates: Vec<GateReport<S>>,
    /// True if any gate fell back to its failure policy or a stage ran out of budget.
    pub degraded_mode: bool,
}

/// The running state of one request's check.
pub struct CheckRun<S> {
    dry_run: bool,
    step: CheckStep,
    gates: Vec<GateReport<S>>,
    degraded_mode: bool,
    blocked_by: Option<GateId>,
    response: Option<String>,
    pre: Ghost<GateReport<S>>,
    input: Ghost<Option<FanOutSummary<S>>>,
    llm: Ghost<Option<String>>,
    output: Ghost<Option<FanOutSummary<S>>>,
}

impl<S> CheckRun<S> {
    /// The next step the caller has to take.
    pub closed spec fn spec_step(&self) -> CheckStep {
        self.step
    }

    /// Whether the request runs in dry-run mode.
    pub closed spec fn spec_dry_run(&self) -> bool {
        self.dry_run
    }

    /// The prefilter report the check started from.
    pub closed spec fn spec_prefilter(&self) -> GateReport<S> {
        self.pre@
    }

    /// The input stage summary, once the input gates have run.
    pub closed spec fn spec_input(&self) -> Option<FanOutSummary<S>> {
        self.input@
    }

    /// The LLM response, once the LLM has been asked.
    pub closed spec fn spec_llm(&self) -> Option<String> {
        self.llm@
    }

    /// The output stage summary, once the output gates have run.
    pub closed spec fn spec_output(&self) -> Option<FanOutSummary<S>> {
        self.output@
    }

    /// The state agrees with the stages run so far.
    pub closed spec fn wf(&self) -> bool {
        let pre = self.pre@;
        let dry = self.dry_run;
        match self.step {
            CheckStep::RunInputGates => {
                &&& !prefilter_stops(dry, pre)
                &&& self.input@ is None && self.llm@ is None && self.output@ is None
                &&& self.gates@ == seq![pre]
                &&& self.degraded_mode == pre.origin.spec_degraded()
                &&& self.blocked_by is None
                &&& self.response is None
            },
            CheckStep::CallLlm => {
                &&& self.input@ matches Some(input)
                &&& llm_invoked(dry, pre, input)
                &&& self.llm@ is None && self.output@ is None
                &&& self.gates@ == seq![pre] + input.outcomes@
                &&& self.degraded_mode == (pre.origin.spec_degraded() || input.degraded_mode)
                &&& self.blocked_by is None
                &&& self.response is None
            },
            CheckStep::RunOutputGates => {
                &&& self.input@ matches Some(input)
                &&& llm_invoked(dry, pre, input)
                &&& self.llm@ matches Some(text)
                &&& self.output@ is None
                &&& self.gates@ == seq![pre] + input.outcomes@
                &&& self.degraded_mode == (pre.origin.spec_degraded() || input.degraded_mode)
                &&& self.blocked_by is None
                &&& self.response == Some(text)
            },
            CheckStep::Done => {
                &&& (self.input@ is None <==> prefilter_stops(dry, pre))
                &&& (self.input@ is None ==> self.llm@ is None)
                &&& (self.input@ matches Some(input) ==> (self.llm@ is Some <==> llm_invoked(dry, pre, input)))
                &&& (self.llm@ is Some <==> self.output@ is Some)
                &&& (self.gates@, self.degraded_mode, self.blocked_by, self.response)
                    == done_fields(self.finished_model())
            },
        }
    }

    /// The model of the finished check: `check_spec` over what each stage
    /// produced (a stage that did not run is not looked at).
    pub open spec fn finished_model(&self) -> CheckModel<S> {
        check_spec(
            self.spec_dry_run(),
            self.spec_prefilter(),
            self.spec_input().unwrap_or(arbitrary()),
            self.spec_llm().unwrap_or(arbitrary()),
            self.spec_output().unwrap_or(arbitrary()),
        )
    }

    /// In a finished check, the LLM was asked exactly when the output stage
    /// ran, and only after an input stage that let the request through.
    pub proof fn lemma_done_stages(&self)
        requires
            self.wf(),
            self.spec_step() == CheckStep::Done,
        ensures
            self.spec_llm() is Some <==> self.spec_output() is Some,
            self.spec_llm() is Some ==> (self.spec_input() matches Some(input)
                && llm_invoked(self.spec_dry_run(), self.spec_prefilter(), input)),
    {
    }

    /// Starts a check from the prefilter's verdict and how it came about: the
    /// prefilter's report is the first one the check records.
    pub fn start(dry_run: bool, verdict: Verdict<S>, origin: Origin) -> (r: Self)
        ensures
            r.wf(),
            r.spec_dry_run() == dry_run,
            r.spec_prefilter() == (GateReport { gate: GateId::Prefilter, verdict, origin }),
            r.spec_input() is None,
            r.spec_step() == (if prefilter_stops(dry_run, r.spec_prefilter()) {
                CheckStep::Done
            } else {
                CheckStep::RunInputGates
            }),
    {
        let prefilter = GateReport { gate: GateId::Prefilter, verdict, origin };
        let ghost pre = prefilter;
        let degraded = prefilter.origin.is_degraded();
        let stop = prefilter.verdict.is_block() && !dry_run;
        let mut gates: Vec<GateReport<S>> = Vec::new();
        gates.push(prefilter);
        let r = CheckRun {
            dry_run,
            step: if stop { CheckStep::Done } else { CheckStep::RunInputGates },
            gates,
            degraded_mode: degraded,
            blocked_by: if stop { Some(GateId::Prefilter) } else { None },
            response: None,
            pre: Ghost(pre),
            input: Ghost(None),
            llm: Ghost(None),
            output: Ghost(None),
        };
        proof {
            assert(r.gates@ =~= seq![pre]);
        }
        r
    }

    /// The next step the caller has to take.
    pub fn step(&self) -> (s: CheckStep)
        ensures
            s == self.spec_step(),
    {
        self.step
    }

    /// Records the input stage; the check either stops here or asks for the LLM.
    pub fn input_finished(&mut self, input: FanOutSummary<S>)
        requires
            old(self).wf(),
            old(self).spec_step() == CheckStep::RunInputGates,
        ensures
            final(self).wf(),
            final(self).spec_dry_run() == old(self).spec_dry_run(),
            final(self).spec_prefilter() == old(self).spec_prefilter(),
            final(self).spec_input() == Some(input),
            final(self).spec_llm() is None,
            final(self).spec_step() == (if stops(old(self).spec_dry_run(), input.blocked_by) {
                CheckStep::Done
            } else {
                CheckStep::CallLlm
            }),
    {
        let ghost g = input;
        let stop = input.blocked_by.is_some() && !self.dry_run;
        let FanOutSummary { outcomes, blocked_by, degraded_mode } = input;
        let ghost old_gates = self.gates@;
        let mut outcomes = outcomes;
        self.gates.append(&mut outcomes);
        self.degraded_mode = self.degraded_mode || degraded_mode;
        self.input = Ghost(Some(g));
        if stop {
            self.blocked_by = blocked_by;
            self.step = CheckStep::Done;
        } else {
            self.step = CheckStep::CallLlm;
        }
        proof {
            assert(self.gates@ =~= old_gates + g.outcomes@);
        }
    }

    /// Records the LLM response; the output gates run next.
    pub fn llm_finished(&mut self, text: String)
        requires
            old(self).wf(),
            old(self).spec_step() == CheckStep::CallLlm,
        ensures
            final(self).wf(),
            final(self).spec_dry_run() == old(self).spec_dry_run(),
            final(self).spec_prefilter() == old(self).spec_prefilter(),
            final(self).spec_input() == old(self).spec_input(),
            final(self).spec_llm() == Some(text),
            final(self).spec_step() == CheckStep::RunOutputGates,
    {
        self.llm = Ghost(Some(text));
        self.response = Some(text);
        self.step = CheckStep::RunOutputGates;
    }

    /// Ends the check when the LLM could not be asked: the request fails with
    /// the LLM's error, and no output gate runs.
    pub fn llm_failed(self, err: LlmError) -> (r: PipelineError)
        requires
            self.wf(),
            self.spec_step() == CheckStep::CallLlm,
        ensures
            r == PipelineError::Llm(err),
    {
        PipelineError::Llm(err)
    }

    /// Records the output stage; the decision is then made.
    pub fn output_finished(&mut self, output: FanOutSummary<S>)
        requires
            old(self).wf(),
            old(self).spec_step() == CheckStep::RunOutputGates,
        ensures
            final(self).wf(),
            final(self).spec_dry_run() == old(self).spec_dry_run(),
            final(self).spec_prefilter() == old(self).spec_prefilter(),
            final(self).spec_input() == old(self).spec_input(),
            final(self).spec_llm() == old(self).spec_llm(),
            final(self).spec_output() == Some(output),
            final(self).spec_step() == CheckStep::Done,
    {
        let ghost g = output;
        let stop = output.blocked_by.is_some() && !self.dry_run;
        let FanOutSummary { outcomes, blocked_by, degraded_mode } = output;
        let ghost old_gates = self.gates@;
        let mut outcomes = outcomes;
        self.gates.append(&mut outcomes);
        self.degraded_mode = self.degraded_mode || degraded_mode;
        self.output = Ghost(Some(g));
        if stop {
            self.blocked_by = blocked_by;
            self.response = None;
        }
        self.step = CheckStep::Done;
        proof {
            assert(self.gates@ =~= old_gates + g.outcomes@);
        }
    }

    /// The decision of a finished check.
    pub fn finish(self) -> (r: CheckOutcome<S>)
        requires
            self.wf(),
            self.spec_step() == CheckStep::Done,
        ensures
            (r.decision, r.response, r.blocked_by, r.gates@, r.degraded_mode) == self.finished_model(),
    {
        let decision = if self.blocked_by.is_some() { Decision::Block } else { Decision::Allow };
        CheckOutcome {
            decision,
            response: self.response,
            blocked_by: self.blocked_by,
            gates: self.gates,
            degraded_mode: self.degraded_mode,
        }
    }
}

/// The fields of a finished check that the run state holds directly.
pub open spec fn done_fields<S>(m: CheckModel<S>) -> (Seq<GateReport<S>>, bool, Option<GateId>, Option<String>) {
    (m.3, m.4, m.2, m.1)
}

} // verus!

verus! {

/// In dry-run mode a request is never blocked: it is allowed with the LLM
/// response, no gate is reported as blocking, and the outcomes of every stage
/// (blocking verdicts included) are reported.
pub proof fn law_dry_run_never_blocks<S>(
    pre: GateReport<S>,
    input: FanOutSummary<S>,
    llm: String,
    output: FanOutSummary<S>,
)
    ensures
        check_spec(true, pre, input, llm, output).0 == Decision::Allow,
        check_spec(true, pre, input, llm, output).1 == Some(llm),
        check_spec(true, pre, input, llm, output).2 is None,
        check_spec(true, pre, input, llm, output).3 == seq![pre] + input.outcomes@ + output.outcomes@,
        llm_invoked(true, pre, input),
{
}

/// The prefilter's report is the first one a check reports, whatever the
/// later stages produce.
pub proof fn law_prefilter_reported_first<S>(
    dry_run: bool,
    pre: GateReport<S>,
    input: FanOutSummary<S>,
    llm: String,
    output: FanOutSummary<S>,
)
    ensures
        check_spec(dry_run, pre, input, llm, output).3.len() >= 1,
        check_spec(dry_run, pre, input, llm, output).3[0] == pre,
{
}

/// Once the LLM has been asked, a check reports every stage's outcomes: the
/// prefilter's report, then the input stage's outcomes, then the output
/// stage's outcomes, whether or not an output gate blocks, so a blocking
/// output gate's own outcome is always among the reported gates.
pub proof fn law_llm_checks_report_every_stage<S>(
    dry_run: bool,
    pre: GateReport<S>,
    input: FanOutSummary<S>,
    llm: String,
    output: FanOutSummary<S>,
)
    requires
        llm_invoked(dry_run, pre, input),
    ensures
        check_spec(dry_run, pre, input, llm, output).3 == seq![pre] + input.outcomes@ + output.outcomes@,
        output.blocked_by matches Some(g) && !dry_run ==> (check_spec(dry_run, pre, input, llm, output).0 == Decision::Block
            && forall|i: int| 0 <= i < output.outcomes@.len() ==> check_spec(dry_run, pre, input, llm, output).3.contains(
                #[trigger] output.outcomes@[i],
            )),
{
    let gates = check_spec(dry_run, pre, input, llm, output).3;
    assert forall|i: int| 0 <= i < output.outcomes@.len() implies gates.contains(#[trigger] output.outcomes@[i]) by {
        assert(gates[1 + input.outcomes@.len() + i] == output.outcomes@[i]);
    }
}

/// A finished check in which the LLM was asked reports the prefilter's
/// report, the input stage's outcomes and the output stage's outcomes, in
/// that order.
pub proof fn law_finished_run_reports_every_stage<S>(run: CheckRun<S>)
    requires
        run.wf(),
        run.spec_step() == CheckStep::Done,
        run.spec_llm() is Some,
    ensures
        run.spec_input() is Some && run.spec_output() is Some,
        run.finished_model().3 == seq![run.spec_prefilter()] + run.spec_input().unwrap().outcomes@
            + run.spec_output().unwrap().outcomes@,
{
    run.lemma_done_stages();
    law_llm_checks_report_every_stage(
        run.spec_dry_run(),
        run.spec_prefilter(),
        run.spec_input().unwrap(),
        run.spec_llm().unwrap(),
        run.spec_output().unwrap(),
    );
}

/// A request is blocked exactly when a blocking gate is reported, and
/// exactly when no response is returned.
pub proof fn law_block_iff_blocking_gate<S>(
    dry_run: bool,
    pre: GateReport<S>,
    input: FanOutSummary<S>,
    llm: String,
    output: FanOutSummary<S>,
)
    ensures
        (check_spec(dry_run, pre, input, llm, output).0 == Decision::Block)
            == (check_spec(dry_run, pre, input, llm, output).2 is Some),
        (check_spec(dry_run, pre, input, llm, output).0 == Decision::Block)
            == (check_spec(dry_run, pre, input, llm, output).1 is None),
{
}

/// A prefilter block (outside dry-run mode) short-circuits the request: only
/// the prefilter is reported, it is the blocking gate, and the LLM is not asked.
pub proof fn law_prefilter_block_short_circuits<S>(
    pre: GateReport<S>,
    input: FanOutSummary<S>,
    llm: String,
    output: FanOutSummary<S>,
)
    requires
        pre.verdict is Block,
    ensures
        check_spec(false, pre, input, llm, output).0 == Decision::Block,
        check_spec(false, pre, input, llm, output).2 == Some(pre.gate),
        check_spec(false, pre, input, llm, output).3 == seq![pre],
        !llm_invoked(false, pre, input),
{
}

/// A block in the input stage (outside dry-run mode) keeps the LLM from
/// being asked; the request is blocked by the input stage's blocking gate and
/// reports the prefilter and the input gates only.
pub proof fn law_input_block_skips_llm<S>(
    pre: GateReport<S>,
    input: FanOutSummary<S>,
    llm: String,
    output: FanOutSummary<S>,
)
    requires
        !(pre.verdict is Block),
        input.blocked_by is Some,
    ensures
        !llm_invoked(false, pre, input),
        check_spec(false, pre, input, llm, output).0 == Decision::Block,
        check_spec(false, pre, input, llm, output).2 == input.blocked_by,
        check_spec(false, pre, input, llm, output).3 == seq![pre] + input.outcomes@,
{
}

/// A request whose stages all run reports degraded mode exactly when one of
/// them was degraded.
pub proof fn law_degraded_mode_is_any_stage<S>(
    dry_run: bool,
    pre: GateReport<S>,
    input: FanOutSummary<S>,
    llm: String,
    output: FanOutSummary<S>,
)
    requires
        llm_invoked(dry_run, pre, input),
    ensures
        check_spec(dry_run, pre, input, llm, output).4
            == (pre.origin.spec_degraded() || input.degraded_mode || output.degraded_mode),
{
}

/// The summary a stage reports after the given events (outside dry-run mode).
pub open spec fn summarizes<S>(summary: FanOutSummary<S>, events: Seq<crate::executor::FanOutEvent<S>>) -> bool {
    &&& summary.outcomes@ == crate::executor::fan_out_run(false, events).0
    &&& summary.blocked_by == crate::executor::fan_out_run(false, events).1
    &&& summary.degraded_mode == crate::executor::fan_out_run(false, events).2
}

/// Outside dry-run mode, an allowed request passed every gate that ran: no
/// recorded outcome is a Block.
pub proof fn law_allowed_request_has_no_block<S>(
    pre: GateReport<S>,
    input: FanOutSummary<S>,
    input_events: Seq<crate::executor::FanOutEvent<S>>,
    llm: String,
    output: FanOutSummary<S>,
    output_events: Seq<crate::executor::FanOutEvent<S>>,
)
    requires
        summarizes(input, input_events),
        summarizes(output, output_events),
        check_spec(false, pre, input, llm, output).0 == Decision::Allow,
    ensures
        forall|i: int| 0 <= i < check_spec(false, pre, input, llm, output).3.len()
            ==> !(#[trigger] check_spec(false, pre, input, llm, output).3[i].verdict is Block),
{
    crate::executor::law_first_block_stops_stage(input_events);
    crate::executor::law_first_block_stops_stage(output_events);
    let gates = check_spec(false, pre, input, llm, output).3;
    let n0 = 1int;
    let n1 = n0 + input.outcomes@.len();
    assert forall|i: int| 0 <= i < gates.len() implies !(#[trigger] gates[i].verdict is Block) by {
        if i == 0 {
            assert(gates[i] == pre);
        } else if i < n1 {
            assert(gates[i] == input.outcomes@[i - 1]);
            if input.outcomes@[i - 1].verdict is Block {
                assert(i - 1 == input.outcomes@.len() - 1);
            }
        } else {
            assert(gates[i] == output.outcomes@[i - n1]);
            if output.outcomes@[i - n1].verdict is Block {
                assert(i - n1 == output.outcomes@.len() - 1);
            }
        }
    }
}

/// The report recorded for the prefilter when it is disabled or skipped by the request.
pub fn skipped_prefilter_report<S>() -> (r: GateReport<S>)
    ensures
        r.gate == GateId::Prefilter,
        r.verdict is Pass,
        r.origin is Skipped,
{
    GateReport { gate: GateId::Prefilter, verdict: Verdict::Pass, origin: Origin::Skipped }
}

/// The report recorded for the prefilter when it fails: the request is let
/// through and the outcome is marked degraded.
pub fn failed_prefilter_report<S>(error: String) -> (r: GateReport<S>)
    ensures
        r.gate == GateId::Prefilter,
        r.verdict is Pass,
        r.origin == (Origin::ErrorPassed { error }),
{
    GateReport { gate: GateId::Prefilter, verdict: Verdict::Pass, origin: Origin::ErrorPassed { error } }
}

} // verus!

verus! {

/// Request body of a check.
#[derive(Debug, Clone)]
pub struct CheckRequest {
    /// Required user query string.
    pub query: String,
    /// Optional session/conversation identifier.
    pub session_id: Option<String>,
    /// Optional compressed chat history summary.
    pub history_summary: Option<String>,
    /// Optional execution options.
    pub options: RequestOptions,
}

/// Which LLM backend serves generation.
#[derive(Debug, Clone, Copy, PartialEq, Eq, Structural)]
pub enum LlmKind {
    /// The Google Gemini API.
    Gemini,
    /// The offline mock.
    Mock,
}

/// Selects the LLM backend from the configured name: "gemini" selects Gemini,
/// any other name the mock.
pub fn llm_kind(backend: &str) -> (k: LlmKind)
    ensures
        k == (if backend@ == "gemini"@ { LlmKind::Gemini } else { LlmKind::Mock }),
{
    if String::from_str(backend) == String::from_str("gemini") {
        LlmKind::Gemini
    } else {
        LlmKind::Mock
    }
}

/// Whether a model-backed gate is wired: it is enabled and its model is available.
#[derive(Debug, Clone, Copy)]
pub struct GateSwitch {
    /// Enabled in the configuration.
    pub enabled: bool,
    /// The registry has a backend for its model.
    pub available: bool,
}

/// The Tier 1 input gates that are wired, in order: coherence, PII, toxicity,
/// intent. A model-backed gate needs to be enabled and have its model; the PII
/// gate needs no model.
pub open spec fn input_plan_spec(coherence: GateSwitch, pii_enabled: bool, toxicity: GateSwitch, intent: GateSwitch) -> Seq<GateId> {
    let a: Seq<GateId> = if coherence.enabled && coherence.available { seq![GateId::Coherence] } else { seq![] };
    let b = if pii_enabled { a.push(GateId::Pii) } else { a };
    let c = if toxicity.enabled && toxicity.available { b.push(GateId::Toxicity) } else { b };
    if intent.enabled && intent.available { c.push(GateId::Intent) } else { c }
}

/// Decides which Tier 1 input gates are wired.
pub fn input_gate_plan(coherence: GateSwitch, pii_enabled: bool, toxicity: GateSwitch, intent: GateSwitch) -> (r: Vec<GateId>)
    ensures
        r@ == input_plan_spec(coherence, pii_enabled, toxicity, intent),
{
    let mut r: Vec<GateId> = Vec::new();
    if coherence.enabled && coherence.available {
        r.push(GateId::Coherence);
    }
    if pii_enabled {
        r.push(GateId::Pii);
    }
    if toxicity.enabled && toxicity.available {
        r.push(GateId::Toxicity);
    }
    if intent.enabled && intent.available {
        r.push(GateId::Intent);
    }
    proof {
        assert(r@ =~= input_plan_spec(coherence, pii_enabled, toxicity, intent));
    }
    r
}

/// The Tier 2 output gates that are wired, in order: grounding, relevance
/// (the cross-encoder they share always has a backend, the stub at worst).
pub open spec fn output_plan_spec(grounding_enabled: bool, relevance_enabled: bool) -> Seq<GateId> {
    let a: Seq<GateId> = if grounding_enabled { seq![GateId::Grounding] } else { seq![] };
    if relevance_enabled { a.push(GateId::Relevance) } else { a }
}

/// Decides which Tier 2 output gates are wired.
pub fn output_gate_plan(grounding_enabled: bool, relevance_enabled: bool) -> (r: Vec<GateId>)
    ensures
        r@ == output_plan_spec(grounding_enabled, relevance_enabled),
{
    let mut r: Vec<GateId> = Vec::new();
    if grounding_enabled {
        r.push(GateId::Grounding);
    }
    if relevance_enabled {
        r.push(GateId::Relevance);
    }
    proof {
        assert(r@ =~= output_plan_spec(grounding_enabled, relevance_enabled));
    }
    r
}

/// The pipeline error of an output gate that could not be initialized:
/// the type name, " initialization failed: ", then the error text.
pub fn gate_init_error(gate_type: &str, error: &str) -> (e: PipelineError)
    ensures
        (e matches PipelineError::Internal(m) && m@ == gate_type@ + " initialization failed: "@ + error@),
{
    let mut m = String::from_str(gate_type);
    m.append(" initialization failed: ");
    m.append(error);
    PipelineError::Internal(m)
}

/// The estimate of LLM tokens saved by blocking a query before generation:
/// its words plus 150.
pub open spec fn tokens_saved_spec(query: Seq<char>) -> int {
    (words(query).len() + 150) as int
}

/// Estimates the LLM tokens saved by blocking a query before generation
/// (saturating at `u64::MAX`).
pub fn tokens_saved_estimate(query: &str) -> (n: u64)
    ensures
        tokens_saved_spec(query@) <= u64::MAX ==> n == tokens_saved_spec(query@),
        tokens_saved_spec(query@) > u64::MAX ==> n == u64::MAX,
{
    let w = word_count(query) as u64;
    w.saturating_add(150)
}

} // verus!
