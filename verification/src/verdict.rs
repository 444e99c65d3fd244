//! Gate identifiers, pipeline stages, failure policies, verdicts and decisions.

use vstd::prelude::*;
use vstd::string::StringExecFns;
use crate::text::{decimal, push_decimal, join_with, join_strings};

verus! {

/// Identifier for the individual gates of the pipeline.
#[derive(Debug, Clone, Copy, PartialEq, Eq, Structural, Hash)]
pub enum GateId {
    /// Tier 0 heuristic prefilter.
    Prefilter,
    /// Tier 1 coherence sequence classifier.
    Coherence,
    /// Tier 1 PII detector.
    Pii,
    /// Tier 1 toxicity sequence classifier.
    Toxicity,
    /// Tier 1 prompt injection and jailbreak detector.
    Intent,
    /// Tier 2 grounding and hallucination evaluator.
    Grounding,
    /// Tier 2 output relevance evaluator.
    Relevance,
}

/// The canonical lowercase name of a gate.
pub open spec fn gate_name(id: GateId) -> Seq<char> {
    match id {
        GateId::Prefilter => "prefilter"@,
        GateId::Coherence => "coherence"@,
        GateId::Pii => "pii"@,
        GateId::Toxicity => "toxicity"@,
        GateId::Intent => "intent"@,
        GateId::Grounding => "grounding"@,
        GateId::Relevance => "relevance"@,
    }
}

impl GateId {
    /// Returns the static string representation of this gate identifier.
    pub fn as_str(self) -> (s: &'static str)
        ensures
            s@ == gate_name(self),
    {
        match self {
            GateId::Prefilter => "prefilter",
            GateId::Coherence => "coherence",
            GateId::Pii => "pii",
            GateId::Toxicity => "toxicity",
            GateId::Intent => "intent",
            GateId::Grounding => "grounding",
            GateId::Relevance => "relevance",
        }
    }
}

} // verus!

verus! {

/// Pipeline processing stage.
#[derive(Debug, Clone, Copy, PartialEq, Eq, Structural, Hash)]
pub enum Stage {
    /// Executed on the user query before routing to the LLM.
    Input,
    /// Executed on the model response before returning it to the user.
    Output,
}

impl Stage {
    /// The lowercase name of the stage, as used in logs and metrics.
    pub fn as_str(self) -> (s: &'static str)
        ensures
            s@ == (match self {
                Stage::Input => "input"@,
                Stage::Output => "output"@,
            }),
    {
        match self {
            Stage::Input => "input",
            Stage::Output => "output",
        }
    }
}

/// Failure policy applied when a gate times out or fails.
#[derive(Debug, Clone, Copy, PartialEq, Eq, Structural, Hash)]
pub enum FailurePolicy {
    /// Allow the request to proceed on gate error or timeout.
    Open,
    /// Block the request on gate error or timeout.
    Closed,
}

/// Overall pipeline decision for a request.
#[derive(Debug, Clone, Copy, PartialEq, Eq, Structural, Hash)]
pub enum Decision {
    /// The request cleared all gates and was fulfilled.
    Allow,
    /// The request was blocked by a gate.
    Block,
}

impl Decision {
    /// The lowercase name of the decision ("allow" or "block").
    pub fn as_str(self) -> (s: &'static str)
        ensures
            s@ == (match self {
                Decision::Allow => "allow"@,
                Decision::Block => "block"@,
            }),
    {
        match self {
            Decision::Allow => "allow",
            Decision::Block => "block",
        }
    }
}

/// Operator-facing reason for blocking a request. `S` is the type of the
/// model scores and thresholds carried by the classifier-based reasons.
#[derive(Debug, Clone)]
pub enum BlockReason<S> {
    /// Input failed the heuristic prefilter.
    PrefilterNoise { message: String },
    /// Input classified as incoherent / word salad.
    Incoherent { score: S, threshold: S },
    /// High-risk personally identifiable information detected.
    PiiDetected { matched_classes: Vec<String> },
    /// Toxic or abusive language detected.
    ToxicContent { score: S, threshold: S },
    /// Prompt injection or jailbreak attempt detected.
    PromptAttack { score: S, threshold: S },
    /// Output hallucination or ungrounded response detected.
    UngroundedResponse { score: S, threshold: S },
    /// Output irrelevant to the user query.
    IrrelevantResponse { score: S, threshold: S },
    /// Gate timed out under a fail-closed policy.
    Timeout { gate: GateId, timeout_ms: u64 },
    /// Gate hit an unrecoverable error under a fail-closed policy.
    GateError { gate: GateId, message: String },
    /// A Clarify verdict mapped to Block while clarification is disabled.
    ClarificationRequired { hint: String },
}

/// Outcome of a single gate evaluation.
#[derive(Debug, Clone)]
pub enum Verdict<S> {
    /// No objection was found.
    Pass,
    /// The request should be stopped.
    Block { reason: BlockReason<S> },
    /// The request is answerable only after clarification.
    Clarify { hint: String },
}

impl<S> Verdict<S> {
    /// Returns true if the verdict is `Pass`.
    pub fn is_pass(&self) -> (b: bool)
        ensures
            b == (*self is Pass),
    {
        match self {
            Verdict::Pass => true,
            _ => false,
        }
    }

    /// Returns true if the verdict is `Block`.
    pub fn is_block(&self) -> (b: bool)
        ensures
            b == (*self is Block),
    {
        match self {
            Verdict::Block { .. } => true,
            _ => false,
        }
    }

    /// Returns true if the verdict is `Clarify`.
    pub fn is_clarify(&self) -> (b: bool)
        ensures
            b == (*self is Clarify),
    {
        match self {
            Verdict::Clarify { .. } => true,
            _ => false,
        }
    }
}

} // verus!

verus! {

/// The operator-facing text of a block reason. Scores and thresholds are
/// given already rendered (three decimals), as `score` and `threshold`.
pub open spec fn block_reason_text<S>(r: BlockReason<S>, score: Seq<char>, threshold: Seq<char>) -> Seq<char> {
    let sc = "(score="@ + score + ", threshold="@ + threshold + ")"@;
    match r {
        BlockReason::PrefilterNoise { message } => "prefilter noise: "@ + message@,
        BlockReason::Incoherent { .. } => "incoherent query "@ + sc,
        BlockReason::PiiDetected { matched_classes } => "high-risk PII detected: "@
            + join_with(matched_classes@.map_values(|c: String| c@), ", "@),
        BlockReason::ToxicContent { .. } => "toxic content "@ + sc,
        BlockReason::PromptAttack { .. } => "prompt injection detected "@ + sc,
        BlockReason::UngroundedResponse { .. } => "ungrounded response "@ + sc,
        BlockReason::IrrelevantResponse { .. } => "irrelevant response "@ + sc,
        BlockReason::Timeout { gate, timeout_ms } => "gate "@ + gate_name(gate) + " timed out after "@
            + decimal(timeout_ms as nat) + "ms (fail-closed)"@,
        BlockReason::GateError { gate, message } => "gate "@ + gate_name(gate) + " error: "@ + message@
            + " (fail-closed)"@,
        BlockReason::ClarificationRequired { hint } => "clarification required: "@ + hint@,
    }
}

fn score_part(score: &str, threshold: &str) -> (r: String)
    ensures
        r@ == "(score="@ + score@ + ", threshold="@ + threshold@ + ")"@,
{
    let mut r = String::from_str("(score=");
    r.append(score);
    r.append(", threshold=");
    r.append(threshold);
    r.append(")");
    r
}

impl<S> BlockReason<S> {
    /// The operator-facing text of the reason; the classifier-based reasons
    /// show `score` and `threshold`, which the caller renders.
    pub fn message(&self, score: &str, threshold: &str) -> (r: String)
        ensures
            r@ == block_reason_text(*self, score@, threshold@),
    {
        match self {
            BlockReason::PrefilterNoise { message } => {
                let mut r = String::from_str("prefilter noise: ");
                r.append(message.as_str());
                r
            },
            BlockReason::Incoherent { .. } => {
                let mut r = String::from_str("incoherent query ");
                r.append(score_part(score, threshold).as_str());
                r
            },
            BlockReason::PiiDetected { matched_classes } => {
                let mut r = String::from_str("high-risk PII detected: ");
                r.append(join_strings(matched_classes.as_slice(), ", ").as_str());
                r
            },
            BlockReason::ToxicContent { .. } => {
                let mut r = String::from_str("toxic content ");
                r.append(score_part(score, threshold).as_str());
                r
            },
            BlockReason::PromptAttack { .. } => {
                let mut r = String::from_str("prompt injection detected ");
                r.append(score_part(score, threshold).as_str());
                r
            },
            BlockReason::UngroundedResponse { .. } => {
                let mut r = String::from_str("ungrounded response ");
                r.append(score_part(score, threshold).as_str());
                r
            },
            BlockReason::IrrelevantResponse { .. } => {
                let mut r = String::from_str("irrelevant response ");
                r.append(score_part(score, threshold).as_str());
                r
            },
            BlockReason::Timeout { gate, timeout_ms } => {
                let mut r = String::from_str("gate ");
                r.append(gate.as_str());
                r.append(" timed out after ");
                push_decimal(&mut r, *timeout_ms);
                r.append("ms (fail-closed)");
                r
            },
            BlockReason::GateError { gate, message } => {
                let mut r = String::from_str("gate ");
                r.append(gate.as_str());
                r.append(" error: ");
                r.append(message.as_str());
                r.append(" (fail-closed)");
                r
            },
            BlockReason::ClarificationRequired { hint } => {
                let mut r = String::from_str("clarification required: ");
                r.append(hint.as_str());
                r
            },
        }
    }
}

} // verus!
