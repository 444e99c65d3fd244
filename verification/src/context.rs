//! Request options and the per-request and per-gate evaluation contexts.

use vstd::prelude::*;
use crate::verdict::GateId;
use std::time::Instant;
use uuid::Uuid;

verus! {

/// Request execution options supplied by the caller.
#[derive(Debug, Clone)]
pub struct RequestOptions {
    /// Gates to bypass during this evaluation (treated as a set: order and
    /// repetitions carry no meaning).
    pub skip_gates: Vec<GateId>,
    /// When true, evaluate all gates and report findings without blocking.
    pub dry_run: bool,
}

impl Default for RequestOptions {
    fn default() -> (r: Self)
        ensures
            r.skip_gates@ == Seq::<GateId>::empty(),
            !r.dry_run,
    {
        RequestOptions { skip_gates: Vec::new(), dry_run: false }
    }
}

impl RequestOptions {
    /// Returns true if the given gate is listed among the gates to skip.
    pub fn skips(&self, gate_id: GateId) -> (b: bool)
        ensures
            b == self.skip_gates@.contains(gate_id),
    {
        let mut i: usize = 0;
        while i < self.skip_gates.len()
            invariant
                i <= self.skip_gates@.len(),
                forall|k: int| 0 <= k < i ==> self.skip_gates@[k] != gate_id,
            decreases self.skip_gates@.len() - i,
        {
            if self.skip_gates[i] == gate_id {
                return true;
            }
            i = i + 1;
        }
        false
    }
}


/// Declares `uuid::Uuid` so that request contexts can carry trace identifiers.
#[verifier::external_type_specification]
#[verifier::external_body]
pub struct ExUuid(Uuid);

/// Declares `std::time::Instant` so that request contexts can carry their start time.
#[verifier::external_type_specification]
#[verifier::external_body]
pub struct ExInstant(Instant);

/// `uuid::Uuid` is `Copy`; its `Clone::clone` returns an identical copy.
pub assume_specification[ <Uuid as Clone>::clone ](id: &Uuid) -> (r: Uuid)
    ensures
        r == *id,
;

/// `std::time::Instant` is `Copy`; its `Clone::clone` returns an identical copy.
pub assume_specification[ <Instant as Clone>::clone ](t: &Instant) -> (r: Instant)
    ensures
        r == *t,
;

/// Calls `uuid::Uuid::new_v4`, which draws a random version-4 UUID; nothing is
/// claimed about the value.
#[verifier::external_body]
fn random_trace_id() -> (id: Uuid) {
    Uuid::new_v4()
}

/// Calls `std::time::Instant::now`; nothing is claimed about the value.
#[verifier::external_body]
fn monotonic_now() -> (t: Instant) {
    Instant::now()
}

/// Request-level context containing tracing metadata and execution options.
#[derive(Debug, Clone)]
pub struct RequestContext {
    /// Unique trace identifier assigned to the request.
    pub trace_id: Uuid,
    /// Optional conversation or session identifier.
    pub session_id: Option<String>,
    /// Optional compressed summary of prior conversation turns.
    pub history_summary: Option<String>,
    /// Caller-specified execution options (dry run, gate bypass).
    pub options: RequestOptions,
    /// Monotonic start timestamp for wall-clock latency measurement.
    pub started_at: Instant,
}

impl RequestContext {
    /// Constructs a request context with a freshly generated random trace ID.
    pub fn new(
        session_id: Option<String>,
        history_summary: Option<String>,
        options: RequestOptions,
    ) -> (r: Self)
        ensures
            r.session_id == session_id,
            r.history_summary == history_summary,
            r.options == options,
    {
        RequestContext {
            trace_id: random_trace_id(),
            session_id,
            history_summary,
            options,
            started_at: monotonic_now(),
        }
    }

    /// Constructs a request context with an explicit trace ID (e.g. propagated from upstream headers).
    pub fn with_trace_id(
        trace_id: Uuid,
        session_id: Option<String>,
        history_summary: Option<String>,
        options: RequestOptions,
    ) -> (r: Self)
        ensures
            r.trace_id == trace_id,
            r.session_id == session_id,
            r.history_summary == history_summary,
            r.options == options,
    {
        RequestContext { trace_id, session_id, history_summary, options, started_at: monotonic_now() }
    }

    /// Returns true if the given gate should be skipped.
    pub fn should_skip(&self, gate_id: GateId) -> (b: bool)
        ensures
            b == self.options.skip_gates@.contains(gate_id),
    {
        self.options.skips(gate_id)
    }

    /// Returns true if running in dry-run observability mode.
    pub fn is_dry_run(&self) -> (b: bool)
        ensures
            b == self.options.dry_run,
    {
        self.options.dry_run
    }
}

/// Context provided to individual gate evaluators.
#[derive(Debug, Clone)]
pub struct GateContext<'a> {
    /// Reference to the parent request context.
    pub request: &'a RequestContext,
    /// Raw user query string.
    pub query: &'a str,
    /// LLM-generated response candidate (present only for Tier 2 output gates).
    pub response: Option<&'a str>,
}

impl<'a> GateContext<'a> {
    /// Constructs a gate context for Tier 0 / Tier 1 input gates.
    pub fn for_input(request: &'a RequestContext, query: &'a str) -> (r: Self)
        ensures
            r.request == request,
            r.query == query,
            r.response is None,
    {
        GateContext { request, query, response: None }
    }

    /// Constructs a gate context for Tier 2 output gates.
    pub fn for_output(request: &'a RequestContext, query: &'a str, response: &'a str) -> (r: Self)
        ensures
            r.request == request,
            r.query == query,
            r.response == Some(response),
    {
        GateContext { request, query, response: Some(response) }
    }
}

/// Whether the Tier 0 prefilter runs for a request: it must be enabled and
/// not skipped by the request.
pub fn prefilter_runs(enabled: bool, request: &RequestContext) -> (b: bool)
    ensures
        b == (enabled && !request.options.skip_gates@.contains(GateId::Prefilter)),
{
    enabled && !request.should_skip(GateId::Prefilter)
}

} // verus!
