//! The PII guardrail gate: blocks on high-risk structured identifiers whose
//! class is configured to block, and records emails and phone numbers as
//! observations only.

use vstd::prelude::*;
use vstd::string::StringExecFns;
use crate::config::PiiConfig;
use crate::patterns::{
    FindingView, PatternFinding, PiiPatterns, findings_view, high_risk_findings, observation_findings,
};
use crate::verdict::{BlockReason, FailurePolicy, GateId, Stage, Verdict};
use crate::patterns::{PatternKind, findings_of, pattern_source, regex_match_spans};

verus! {

/// The findings whose class is one of `classes`, in order.
pub open spec fn blocking_findings(fs: Seq<FindingView>, classes: Seq<Seq<char>>) -> Seq<FindingView>
    decreases fs.len(),
{
    if fs.len() == 0 {
        Seq::empty()
    } else {
        let rest = blocking_findings(fs.drop_last(), classes);
        if classes.contains(fs.last().0) {
            rest.push(fs.last())
        } else {
            rest
        }
    }
}

/// The distinct classes of the findings, in order of first occurrence.
pub open spec fn distinct_classes(fs: Seq<FindingView>) -> Seq<Seq<char>>
    decreases fs.len(),
{
    if fs.len() == 0 {
        Seq::empty()
    } else {
        let rest = distinct_classes(fs.drop_last());
        if rest.contains(fs.last().0) {
            rest
        } else {
            rest.push(fs.last().0)
        }
    }
}

/// The plain values of a list of strings.
pub open spec fn strings_view(v: Seq<String>) -> Seq<Seq<char>> {
    v.map_values(|s: String| s@)
}

/// What the PII gate found in a query.
#[derive(Debug, Clone)]
pub struct PiiAssessment {
    /// The distinct blocking classes found, in order of first occurrence.
    pub matched_classes: Vec<String>,
    /// The high-risk findings whose class blocks.
    pub blocked_matches: Vec<PatternFinding>,
    /// The observation findings (emails, phones).
    pub observations: Vec<PatternFinding>,
}

impl PiiAssessment {
    /// Whether the query is blocked: some blocking class was found.
    pub fn is_blocked(&self) -> (b: bool)
        ensures
            b == (self.matched_classes@.len() > 0),
    {
        self.matched_classes.len() > 0
    }

    /// Block with the matched classes when any was found, else Pass.
    pub fn verdict<S>(self) -> (v: Verdict<S>)
        ensures
            self.matched_classes@.len() > 0 ==> (v matches Verdict::Block { reason: BlockReason::PiiDetected { matched_classes } }
                && matched_classes == self.matched_classes),
            self.matched_classes@.len() == 0 ==> v is Pass,
    {
        if self.matched_classes.len() > 0 {
            Verdict::Block { reason: BlockReason::PiiDetected { matched_classes: self.matched_classes } }
        } else {
            Verdict::Pass
        }
    }
}

/// PII guardrail gate.
pub struct PiiGate {
    config: PiiConfig,
    patterns: PiiPatterns,
}

fn contains_string(v: &Vec<String>, s: &String) -> (b: bool)
    ensures
        b == strings_view(v@).contains(s@),
{
    let mut i: usize = 0;
    while i < v.len()
        invariant
            i <= v@.len(),
            forall|k: int| 0 <= k < i ==> v@[k]@ != s@,
        decreases v@.len() - i,
    {
        if v[i] == *s {
            proof {
                assert(strings_view(v@)[i as int] == s@);
            }
            return true;
        }
        i = i + 1;
    }
    proof {
        if strings_view(v@).contains(s@) {
            let k = choose|k: int| 0 <= k < strings_view(v@).len() && strings_view(v@)[k] == s@;
            assert(v@[k]@ == s@);
        }
    }
    false
}

impl PiiGate {
    /// Configuration of this PII gate.
    pub closed spec fn spec_config(&self) -> PiiConfig {
        self.config
    }

    /// The compiled patterns are in order.
    pub closed spec fn wf(&self) -> bool {
        self.patterns.wf()
    }

    /// Constructs a PII gate from its configuration.
    pub fn new(config: PiiConfig) -> (g: Self)
        ensures
            g.wf(),
            g.spec_config() == config,
    {
        PiiGate { config, patterns: PiiPatterns::new() }
    }

    /// Identifier of this PII gate.
    pub fn id(&self) -> (id: GateId)
        ensures
            id == GateId::Pii,
    {
        GateId::Pii
    }

    /// The stage in which this PII gate runs.
    pub fn stage(&self) -> (s: Stage)
        ensures
            s == Stage::Input,
    {
        Stage::Input
    }

    /// The configured failure policy.
    pub fn failure_policy(&self) -> (p: FailurePolicy)
        ensures
            p == self.spec_config().failure_policy,
    {
        self.config.failure_policy
    }

    /// The configured evaluation timeout in milliseconds.
    pub fn timeout_ms(&self) -> (t: u64)
        ensures
            t == self.spec_config().timeout_ms,
    {
        self.config.timeout_ms
    }

    /// Assesses a query: the high-risk findings whose class is configured to
    /// block, their distinct classes, and the observations.
    pub fn assess(&self, query: &str) -> (a: PiiAssessment)
        requires
            self.wf(),
        ensures
            findings_view(a.blocked_matches@)
                == blocking_findings(high_risk_findings(query@), strings_view(self.spec_config().block_classes@)),
            strings_view(a.matched_classes@)
                == distinct_classes(blocking_findings(high_risk_findings(query@), strings_view(self.spec_config().block_classes@))),
            findings_view(a.observations@) == observation_findings(query@),
    {
        let high_risk = self.patterns.scan_high_risk(query);
        let observations = self.patterns.scan_observations(query);
        let ghost classes = strings_view(self.config.block_classes@);
        let ghost all = findings_view(high_risk@);
        let mut matched: Vec<String> = Vec::new();
        let mut blocked: Vec<PatternFinding> = Vec::new();
        let mut i: usize = 0;
        while i < high_risk.len()
            invariant
                i <= high_risk@.len(),
                all == findings_view(high_risk@),
                classes == strings_view(self.config.block_classes@),
                findings_view(blocked@) == blocking_findings(all.take(i as int), classes),
                strings_view(matched@) == distinct_classes(blocking_findings(all.take(i as int), classes)),
            decreases high_risk@.len() - i,
        {
            let finding = high_risk[i].clone();
            let class = String::from_str(finding.class_name);
            proof {
                assert(all.take(i as int + 1).drop_last() =~= all.take(i as int));
                assert(all.take(i as int + 1).last() == finding_view_of(high_risk@[i as int]));
            }
            proof {
                let bf = blocking_findings(all.take(i as int), classes);
                let fv = finding_view_of(high_risk@[i as int]);
                assert(bf.push(fv).drop_last() =~= bf);
                assert(fv.0 == class@);
            }
            if contains_string(&self.config.block_classes, &class) {
                if !contains_string(&matched, &class) {
                    let ghost before = matched@;
                    matched.push(class);
                    proof {
                        assert(strings_view(matched@) =~= strings_view(before).push(class@));
                    }
                }
                let ghost before_b = blocked@;
                blocked.push(finding);
                proof {
                    assert(findings_view(blocked@) =~= findings_view(before_b).push(crate::patterns::finding_view(finding)));
                }
            }
            i = i + 1;
        }
        proof {
            assert(all.take(all.len() as int) =~= all);
        }
        PiiAssessment { matched_classes: matched, blocked_matches: blocked, observations }
    }
}

spec fn finding_view_of(f: PatternFinding) -> FindingView {
    crate::patterns::finding_view(f)
}

} // verus!

verus! {

proof fn lemma_kind_findings_class(k: crate::patterns::PatternKind, text: Seq<char>, spans: Seq<(usize, usize)>)
    ensures
        forall|i: int| 0 <= i < crate::patterns::kind_findings(k, text, spans).len()
            ==> (#[trigger] crate::patterns::kind_findings(k, text, spans)[i]).0 == crate::patterns::class_name_of(k),
    decreases spans.len(),
{
    if spans.len() > 0 {
        lemma_kind_findings_class(k, text, spans.drop_last());
        let rest = crate::patterns::kind_findings(k, text, spans.drop_last());
        let all = crate::patterns::kind_findings(k, text, spans);
        assert forall|i: int| 0 <= i < all.len() implies (#[trigger] all[i]).0 == crate::patterns::class_name_of(k) by {
            if i < rest.len() {
                assert(all[i] == rest[i]);
            }
        }
    }
}

/// The classes a high-risk finding can have.
pub open spec fn high_risk_class(c: Seq<char>) -> bool {
    c == "payment_card"@ || c == "aadhaar"@ || c == "pan"@ || c == "credential"@
}

proof fn lemma_high_risk_classes(text: Seq<char>)
    ensures
        forall|i: int| 0 <= i < high_risk_findings(text).len() ==> high_risk_class(#[trigger] high_risk_findings(text)[i].0),
{
    lemma_kind_findings_class(PatternKind::PaymentCard, text, regex_match_spans(pattern_source(PatternKind::PaymentCard), text));
    lemma_kind_findings_class(PatternKind::Aadhaar, text, regex_match_spans(pattern_source(PatternKind::Aadhaar), text));
    lemma_kind_findings_class(PatternKind::Pan, text, regex_match_spans(pattern_source(PatternKind::Pan), text));
    lemma_kind_findings_class(PatternKind::Jwt, text, regex_match_spans(pattern_source(PatternKind::Jwt), text));
    lemma_kind_findings_class(PatternKind::PrivateKey, text, regex_match_spans(pattern_source(PatternKind::PrivateKey), text));
    lemma_kind_findings_class(PatternKind::ApiKey, text, regex_match_spans(pattern_source(PatternKind::ApiKey), text));
    let a = findings_of(PatternKind::PaymentCard, text);
    let b = findings_of(PatternKind::Aadhaar, text);
    let c = findings_of(PatternKind::Pan, text);
    let d = findings_of(PatternKind::Jwt, text);
    let e = findings_of(PatternKind::PrivateKey, text);
    let f = findings_of(PatternKind::ApiKey, text);
    let all = high_risk_findings(text);
    assert forall|i: int| 0 <= i < all.len() implies high_risk_class(#[trigger] all[i].0) by {
        let n1 = a.len() as int;
        let n2 = n1 + b.len();
        let n3 = n2 + c.len();
        let n4 = n3 + d.len();
        let n5 = n4 + e.len();
        if i < n1 {
            assert(all[i] == a[i]);
        } else if i < n2 {
            assert(all[i] == b[i - n1]);
        } else if i < n3 {
            assert(all[i] == c[i - n2]);
        } else if i < n4 {
            assert(all[i] == d[i - n3]);
        } else if i < n5 {
            assert(all[i] == e[i - n4]);
        } else {
            assert(all[i] == f[i - n5]);
        }
    }
}

proof fn lemma_blocking_findings(fs: Seq<FindingView>, classes: Seq<Seq<char>>)
    ensures
        forall|i: int| 0 <= i < blocking_findings(fs, classes).len() ==> {
            let f = #[trigger] blocking_findings(fs, classes)[i];
            classes.contains(f.0) && fs.contains(f)
        },
        (blocking_findings(fs, classes).len() > 0)
            == (exists|j: int| 0 <= j < fs.len() && classes.contains(#[trigger] fs[j].0)),
    decreases fs.len(),
{
    if fs.len() > 0 {
        let pre = fs.drop_last();
        lemma_blocking_findings(pre, classes);
        let bf = blocking_findings(fs, classes);
        let bp = blocking_findings(pre, classes);
        assert forall|i: int| 0 <= i < bf.len() implies {
            let f = #[trigger] bf[i];
            classes.contains(f.0) && fs.contains(f)
        } by {
            if i < bp.len() {
                assert(bf[i] == bp[i]);
                let j = choose|j: int| 0 <= j < pre.len() && pre[j] == bp[i];
                assert(fs[j] == pre[j]);
            } else {
                assert(bf[i] == fs.last());
                assert(fs[fs.len() - 1] == fs.last());
            }
        }
        if exists|j: int| 0 <= j < fs.len() && classes.contains(#[trigger] fs[j].0) {
            let j = choose|j: int| 0 <= j < fs.len() && classes.contains(#[trigger] fs[j].0);
            if j < pre.len() {
                assert(pre[j] == fs[j]);
            }
        }
        if exists|j: int| 0 <= j < pre.len() && classes.contains(#[trigger] pre[j].0) {
            let j = choose|j: int| 0 <= j < pre.len() && classes.contains(#[trigger] pre[j].0);
            assert(fs[j] == pre[j]);
        }
    }
}

proof fn lemma_distinct_classes(fs: Seq<FindingView>)
    ensures
        (distinct_classes(fs).len() > 0) == (fs.len() > 0),
        forall|i: int| 0 <= i < distinct_classes(fs).len()
            ==> exists|j: int| 0 <= j < fs.len() && fs[j].0 == #[trigger] distinct_classes(fs)[i],
        forall|j: int| 0 <= j < fs.len() ==> distinct_classes(fs).contains(#[trigger] fs[j].0),
        distinct_classes(fs).no_duplicates(),
    decreases fs.len(),
{
    if fs.len() > 0 {
        let pre = fs.drop_last();
        lemma_distinct_classes(pre);
        let d = distinct_classes(fs);
        let dp = distinct_classes(pre);
        assert forall|i: int| 0 <= i < d.len() implies exists|j: int| 0 <= j < fs.len() && fs[j].0 == #[trigger] d[i] by {
            if i < dp.len() {
                assert(d[i] == dp[i]);
                let j = choose|j: int| 0 <= j < pre.len() && pre[j].0 == dp[i];
                assert(fs[j] == pre[j]);
            } else {
                assert(fs[fs.len() - 1].0 == d[i]);
            }
        }
        assert forall|j: int| 0 <= j < fs.len() implies d.contains(#[trigger] fs[j].0) by {
            if j < pre.len() {
                assert(pre[j] == fs[j]);
                let k = choose|k: int| 0 <= k < dp.len() && dp[k] == pre[j].0;
                assert(d[k] == dp[k]);
            } else if dp.contains(fs.last().0) {
                let k = choose|k: int| 0 <= k < dp.len() && dp[k] == fs.last().0;
                assert(d[k] == dp[k]);
            } else {
                assert(d[d.len() - 1] == fs.last().0);
            }
        }
    }
}

/// A PII gate blocks a query exactly when one of its high-risk findings has a
/// class configured to block; the reported classes are those classes, each once.
pub proof fn law_pii_blocks_iff_configured_class_found(query: Seq<char>, block_classes: Seq<Seq<char>>)
    ensures
        (distinct_classes(blocking_findings(high_risk_findings(query), block_classes)).len() > 0)
            == (exists|j: int| 0 <= j < high_risk_findings(query).len()
                && block_classes.contains(#[trigger] high_risk_findings(query)[j].0)),
        distinct_classes(blocking_findings(high_risk_findings(query), block_classes)).no_duplicates(),
        forall|i: int| 0 <= i < distinct_classes(blocking_findings(high_risk_findings(query), block_classes)).len()
            ==> block_classes.contains(#[trigger] distinct_classes(blocking_findings(high_risk_findings(query), block_classes))[i]),
{
    let fs = high_risk_findings(query);
    let bf = blocking_findings(fs, block_classes);
    lemma_blocking_findings(fs, block_classes);
    lemma_distinct_classes(bf);
    let d = distinct_classes(bf);
    assert forall|i: int| 0 <= i < d.len() implies block_classes.contains(#[trigger] d[i]) by {
        let j = choose|j: int| 0 <= j < bf.len() && bf[j].0 == d[i];
        assert(block_classes.contains(bf[j].0));
    }
}

/// Emails and phone numbers never block: whatever classes are configured,
/// every class a query is blocked for is a high-risk class (payment_card,
/// aadhaar, pan or credential).
pub proof fn law_observations_never_block(query: Seq<char>, block_classes: Seq<Seq<char>>)
    ensures
        forall|i: int| 0 <= i < distinct_classes(blocking_findings(high_risk_findings(query), block_classes)).len()
            ==> high_risk_class(#[trigger] distinct_classes(blocking_findings(high_risk_findings(query), block_classes))[i]),
{
    let fs = high_risk_findings(query);
    let bf = blocking_findings(fs, block_classes);
    lemma_high_risk_classes(query);
    lemma_blocking_findings(fs, block_classes);
    lemma_distinct_classes(bf);
    let d = distinct_classes(bf);
    assert forall|i: int| 0 <= i < d.len() implies high_risk_class(#[trigger] d[i]) by {
        let j = choose|j: int| 0 <= j < bf.len() && bf[j].0 == d[i];
        assert(fs.contains(bf[j]));
        let k = choose|k: int| 0 <= k < fs.len() && fs[k] == bf[j];
        assert(high_risk_class(fs[k].0));
    }
}

} // verus!
