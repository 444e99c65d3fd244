//! Deterministic PII pattern matching: high-risk structured identifiers
//! (payment cards, Aadhaar, PAN, credentials) validated by checksums where
//! one exists, and observation-level entities (emails, phones).

use vstd::prelude::*;
use vstd::string::{StringExecFns, StringSliceAdditionalSpecFns};
use vstd::utf8::{encode_utf8, is_char_boundary};
use crate::text::{byte_slice, slice_by_bytes};

verus! {

/// The first character boundary of `bytes` at or after `from` (the end of
/// the bytes when there is none before it).
pub open spec fn boundary_at_or_after(bytes: Seq<u8>, from: int) -> int
    decreases bytes.len() - from,
{
    if from >= bytes.len() || is_char_boundary(bytes, from) {
        from
    } else {
        boundary_at_or_after(bytes, from + 1)
    }
}

/// Where the kept suffix of a masked identifier starts in its UTF-8 bytes:
/// four bytes before the end, moved forward to the next character boundary
/// when that cut falls inside a character.
pub open spec fn mask_cut(val: Seq<char>) -> int {
    boundary_at_or_after(encode_utf8(val), encode_utf8(val).len() - 4)
}

/// The masked form of an identifier, over its UTF-8 bytes: `****` when it has
/// at most four bytes, otherwise `****-` followed by its last four bytes (or,
/// when four bytes from the end is inside a character, the bytes from the
/// next character on).
pub open spec fn mask_spec(val: Seq<char>) -> Seq<char> {
    let b = encode_utf8(val);
    if b.len() <= 4 {
        "****"@
    } else {
        "****-"@ + byte_slice(val, mask_cut(val), b.len() as int)
    }
}

/// Masks a sensitive identifier for safe logging in response details.
pub fn mask_identifier(val: &str) -> (masked: String)
    ensures
        masked@ == mask_spec(val@),
{
    broadcast use vstd::utf8::encode_utf8_valid_utf8, vstd::utf8::is_char_boundary_start_end_of_seq;
    let ghost b = encode_utf8(val@);
    let n = val.as_bytes().len();
    proof {
        reveal_strlit("****-");
        reveal_strlit("****");
        assert(val.spec_bytes() == b);
    }
    if n <= 4 {
        return String::from_str("****");
    }
    let mut k: usize = n - 4;
    while k < n && !val.is_char_boundary(k)
        invariant
            n == b.len(),
            n > 4,
            n - 4 <= k <= n,
            val.spec_bytes() == b,
            boundary_at_or_after(b, n - 4) == boundary_at_or_after(b, k as int),
        decreases n - k,
    {
        k = k + 1;
    }
    proof {
        assert(boundary_at_or_after(b, k as int) == k);
        assert(is_char_boundary(b, n as int));
        assert(is_char_boundary(b, k as int));
    }
    let suffix = slice_by_bytes(val, k, n);
    let mut masked = String::from_str("****-");
    masked.append(suffix);
    masked
}

} // verus!

verus! {

use crate::checksum::{luhn_valid, validate_luhn, validate_verhoeff, verhoeff_valid};
use crate::text::{char_offset, lemma_char_offsets, valid_byte_range};
use regex::Regex;

/// The kinds of identifiers the PII scanner looks for.
#[derive(Debug, Clone, Copy, PartialEq, Eq, Structural)]
pub enum PatternKind {
    /// Payment card numbers (validated with Luhn).
    PaymentCard,
    /// Indian Aadhaar numbers (validated with Verhoeff).
    Aadhaar,
    /// Indian PAN card numbers.
    Pan,
    /// JSON Web Tokens.
    Jwt,
    /// PEM private key headers.
    PrivateKey,
    /// Assignments of API keys, access tokens, secret keys or bearer tokens.
    ApiKey,
    /// Email addresses (observation only).
    Email,
    /// Phone numbers (observation only).
    Phone,
}

/// The regular expression that finds candidates of a kind.
pub open spec fn pattern_source(k: PatternKind) -> Seq<char> {
    match k {
        PatternKind::PaymentCard => r"\b(?:4[0-9]{12}(?:[0-9]{3})?|5[1-5][0-9]{14}|3[47][0-9]{13}|6(?:011|5[0-9]{2})[0-9]{12}|(?:2131|1800|35\d{3})\d{11}|[0-9]{4}[ -][0-9]{4}[ -][0-9]{4}[ -][0-9]{4})\b"@,
        PatternKind::Aadhaar => r"\b[2-9]{1}[0-9]{3}[ -]?[0-9]{4}[ -]?[0-9]{4}\b"@,
        PatternKind::Pan => r"\b[A-Z]{5}[0-9]{4}[A-Z]{1}\b"@,
        PatternKind::Jwt => r"\beyJ[A-Za-z0-9-_]{10,}\.[A-Za-z0-9-_]{10,}\.[A-Za-z0-9-_]{10,}\b"@,
        PatternKind::PrivateKey => r"-----BEGIN (?:RSA |EC |DSA |OPENSSH )?PRIVATE KEY-----"@,
        PatternKind::ApiKey => r#"(?i)(?:api[_-]?key|access[_-]?token|secret[_-]?key|bearer)\s*[:=]\s*['"]?([A-Za-z0-9_\-\.]{16,})['"]?"#@,
        PatternKind::Email => r"\b[A-Za-z0-9._%+-]+@[A-Za-z0-9.-]+\.[A-Za-z]{2,}\b"@,
        PatternKind::Phone => r"\b(?:\+?[1-9]\d{0,2}[ -]?)?\(?\d{3}\)?[ -]?\d{3}[ -]?\d{4}\b"@,
    }
}

/// The identifier class a kind reports.
pub open spec fn class_name_of(k: PatternKind) -> Seq<char> {
    match k {
        PatternKind::PaymentCard => "payment_card"@,
        PatternKind::Aadhaar => "aadhaar"@,
        PatternKind::Pan => "pan"@,
        PatternKind::Jwt | PatternKind::PrivateKey | PatternKind::ApiKey => "credential"@,
        PatternKind::Email => "email"@,
        PatternKind::Phone => "phone"@,
    }
}

/// Whether a candidate of a kind is reported: cards must pass Luhn, Aadhaar
/// numbers must pass Verhoeff, other kinds are reported as matched.
pub open spec fn kind_accepts(k: PatternKind, raw: Seq<char>) -> bool {
    match k {
        PatternKind::PaymentCard => luhn_valid(raw),
        PatternKind::Aadhaar => verhoeff_valid(raw),
        _ => true,
    }
}

/// The value a finding of a kind reports for the matched text.
pub open spec fn kind_value(k: PatternKind, raw: Seq<char>) -> Seq<char> {
    match k {
        PatternKind::Jwt => "JWT_TOKEN[redacted]"@,
        PatternKind::PrivateKey => "PRIVATE_KEY_BLOCK[redacted]"@,
        PatternKind::ApiKey => "API_SECRET_KEY[redacted]"@,
        _ => mask_spec(raw),
    }
}

impl PatternKind {
    /// The regular expression that finds candidates of this kind.
    pub fn source(self) -> (s: &'static str)
        ensures
            s@ == pattern_source(self),
    {
        match self {
            PatternKind::PaymentCard => r"\b(?:4[0-9]{12}(?:[0-9]{3})?|5[1-5][0-9]{14}|3[47][0-9]{13}|6(?:011|5[0-9]{2})[0-9]{12}|(?:2131|1800|35\d{3})\d{11}|[0-9]{4}[ -][0-9]{4}[ -][0-9]{4}[ -][0-9]{4})\b",
            PatternKind::Aadhaar => r"\b[2-9]{1}[0-9]{3}[ -]?[0-9]{4}[ -]?[0-9]{4}\b",
            PatternKind::Pan => r"\b[A-Z]{5}[0-9]{4}[A-Z]{1}\b",
            PatternKind::Jwt => r"\beyJ[A-Za-z0-9-_]{10,}\.[A-Za-z0-9-_]{10,}\.[A-Za-z0-9-_]{10,}\b",
            PatternKind::PrivateKey => r"-----BEGIN (?:RSA |EC |DSA |OPENSSH )?PRIVATE KEY-----",
            PatternKind::ApiKey => r#"(?i)(?:api[_-]?key|access[_-]?token|secret[_-]?key|bearer)\s*[:=]\s*['"]?([A-Za-z0-9_\-\.]{16,})['"]?"#,
            PatternKind::Email => r"\b[A-Za-z0-9._%+-]+@[A-Za-z0-9.-]+\.[A-Za-z]{2,}\b",
            PatternKind::Phone => r"\b(?:\+?[1-9]\d{0,2}[ -]?)?\(?\d{3}\)?[ -]?\d{3}[ -]?\d{4}\b",
        }
    }

    /// The identifier class this kind reports.
    pub fn class_name(self) -> (s: &'static str)
        ensures
            s@ == class_name_of(self),
    {
        match self {
            PatternKind::PaymentCard => "payment_card",
            PatternKind::Aadhaar => "aadhaar",
            PatternKind::Pan => "pan",
            PatternKind::Jwt | PatternKind::PrivateKey | PatternKind::ApiKey => "credential",
            PatternKind::Email => "email",
            PatternKind::Phone => "phone",
        }
    }
}

/// Declares `regex::Regex`, the compiled form of a pattern.
#[verifier::external_type_specification]
#[verifier::external_body]
pub struct ExRegex(Regex);

/// The byte spans (start, end) of the successive non-overlapping leftmost-first
/// matches of `pattern` in `text`, as `regex::Regex::find_iter` reports them.
pub uninterp spec fn regex_match_spans(pattern: Seq<char>, text: Seq<char>) -> Seq<(usize, usize)>;

/// Calls `regex::Regex::new` on one of the scanner's own patterns. The
/// contract claims that it compiles (the patterns are fixed and valid).
#[verifier::external_body]
fn compile_regex(source: &'static str) -> (re: Regex)
    requires
        exists|k: PatternKind| pattern_source(k) == source@,
{
    Regex::new(source).expect("scanner patterns are valid regular expressions")
}

/// A pattern kind together with its compiled regular expression. The
/// expression is always the compilation of the kind's own source.
pub struct CompiledPattern {
    kind: PatternKind,
    re: Regex,
}

impl CompiledPattern {
    /// The kind of identifier this pattern finds.
    pub closed spec fn spec_kind(&self) -> PatternKind {
        self.kind
    }

    /// Compiles the pattern of a kind.
    pub fn new(kind: PatternKind) -> (p: Self)
        ensures
            p.spec_kind() == kind,
    {
        let source = kind.source();
        CompiledPattern { kind, re: compile_regex(source) }
    }
}

/// Calls `regex::Regex::find_iter` with the pattern's compiled expression and
/// converts each match to its (start, end) byte offsets. The contract names
/// the spans and states what the regex documentation promises of them: each
/// lies within the text and starts and ends on UTF-8 character boundaries.
#[verifier::external_body]
fn find_spans(p: &CompiledPattern, text: &str) -> (spans: Vec<(usize, usize)>)
    ensures
        spans@ == regex_match_spans(pattern_source(p.spec_kind()), text@),
        forall|i: int| 0 <= i < spans@.len()
            ==> valid_byte_range(text@, #[trigger] spans@[i].0 as int, spans@[i].1 as int),
{
    p.re.find_iter(text).map(|m| (m.start(), m.end())).collect()
}

/// High-risk PII pattern match finding.
#[derive(Debug, PartialEq, Eq)]
pub struct PatternFinding {
    /// Identifier category class (e.g. "payment_card", "aadhaar", "pan", "credential").
    pub class_name: &'static str,
    /// Masked snippet or redaction label.
    pub matched_value: String,
    /// Character offset where the match starts in the text.
    pub start: usize,
    /// Character offset where the match ends in the text.
    pub end: usize,
}

impl Clone for PatternFinding {
    fn clone(&self) -> (r: Self)
        ensures
            r == *self,
    {
        PatternFinding {
            class_name: self.class_name,
            matched_value: self.matched_value.clone(),
            start: self.start,
            end: self.end,
        }
    }
}

/// A finding as plain values: (class, reported value, start, end).
pub type FindingView = (Seq<char>, Seq<char>, usize, usize);

/// The plain values of a finding.
pub open spec fn finding_view(f: PatternFinding) -> FindingView {
    (f.class_name@, f.matched_value@, f.start, f.end)
}

/// The plain values of a sequence of findings.
pub open spec fn findings_view(fs: Seq<PatternFinding>) -> Seq<FindingView> {
    fs.map_values(|f: PatternFinding| finding_view(f))
}

/// Every finding lies within the text and is not empty: its start comes
/// before its end, and its end is at most the text's length (in characters).
pub open spec fn spans_in_text(text: Seq<char>, fs: Seq<FindingView>) -> bool {
    forall|i: int| 0 <= i < fs.len() ==> #[trigger] fs[i].2 < fs[i].3 <= text.len()
}

/// The character offset of byte offset `i` of a text.
pub open spec fn char_offset_spec(text: Seq<char>, i: usize) -> usize {
    byte_slice(text, 0, i as int).len() as usize
}

/// The findings of a kind, given the candidate byte spans: the accepted
/// candidates, in order, with their class, reported value and character
/// offsets. An empty match (which none of the patterns can produce) is not
/// a finding.
pub open spec fn kind_findings(k: PatternKind, text: Seq<char>, spans: Seq<(usize, usize)>) -> Seq<FindingView>
    decreases spans.len(),
{
    if spans.len() == 0 {
        Seq::empty()
    } else {
        let rest = kind_findings(k, text, spans.drop_last());
        let (s, e) = spans.last();
        let raw = byte_slice(text, s as int, e as int);
        if s < e && kind_accepts(k, raw) {
            rest.push((class_name_of(k), kind_value(k, raw), char_offset_spec(text, s), char_offset_spec(text, e)))
        } else {
            rest
        }
    }
}

/// The findings of a kind in a text.
pub open spec fn findings_of(k: PatternKind, text: Seq<char>) -> Seq<FindingView> {
    kind_findings(k, text, regex_match_spans(pattern_source(k), text))
}

/// Whether a candidate of a kind is reported.
fn accepts(k: PatternKind, raw: &str) -> (b: bool)
    ensures
        b == kind_accepts(k, raw@),
{
    match k {
        PatternKind::PaymentCard => validate_luhn(raw),
        PatternKind::Aadhaar => validate_verhoeff(raw),
        _ => true,
    }
}

/// The value reported for an accepted candidate of a kind.
fn reported_value(k: PatternKind, raw: &str) -> (v: String)
    ensures
        v@ == kind_value(k, raw@),
{
    match k {
        PatternKind::Jwt => String::from_str("JWT_TOKEN[redacted]"),
        PatternKind::PrivateKey => String::from_str("PRIVATE_KEY_BLOCK[redacted]"),
        PatternKind::ApiKey => String::from_str("API_SECRET_KEY[redacted]"),
        _ => mask_identifier(raw),
    }
}

/// The findings of one pattern, appended to `out`.
fn collect_findings(p: &CompiledPattern, text: &str, out: Vec<PatternFinding>) -> (r: Vec<PatternFinding>)
    requires
        spans_in_text(text@, findings_view(out@)),
    ensures
        findings_view(r@) == findings_view(out@) + findings_of(p.spec_kind(), text@),
        spans_in_text(text@, findings_view(r@)),
{
    let k = p.kind;
    let spans = find_spans(p, text);
    let ghost all = spans@;
    let mut out = out;
    let ghost base = findings_view(out@);
    let mut i: usize = 0;
    while i < spans.len()
        invariant
            i <= spans@.len(),
            spans@ == all,
            all == regex_match_spans(pattern_source(k), text@),
            k == p.spec_kind(),
            forall|j: int| 0 <= j < spans@.len()
                ==> valid_byte_range(text@, #[trigger] spans@[j].0 as int, spans@[j].1 as int),
            findings_view(out@) == base + kind_findings(k, text@, all.take(i as int)),
            spans_in_text(text@, findings_view(out@)),
        decreases spans@.len() - i,
    {
        let (s, e) = spans[i];
        let raw = slice_by_bytes(text, s, e);
        proof {
            assert(all.take(i as int + 1).drop_last() =~= all.take(i as int));
            assert(all.take(i as int + 1).last() == all[i as int]);
        }
        if s < e && accepts(k, raw) {
            let value = reported_value(k, raw);
            let start = char_offset(text, s);
            let end = char_offset(text, e);
            let ghost before = out@;
            out.push(PatternFinding { class_name: k.class_name(), matched_value: value, start, end });
            proof {
                assert(valid_byte_range(text@, spans@[i as int].0 as int, spans@[i as int].1 as int));
                lemma_char_offsets(text@, s as int, e as int);
                assert(findings_view(out@) =~= findings_view(before).push(finding_view(out@.last())));
                assert forall|j: int| 0 <= j < findings_view(out@).len() implies
                    #[trigger] findings_view(out@)[j].2 < findings_view(out@)[j].3 <= text@.len() by {
                    if j < findings_view(before).len() {
                        assert(findings_view(out@)[j] == findings_view(before)[j]);
                    }
                }
            }
        }
        i = i + 1;
    }
    proof {
        assert(all.take(all.len() as int) =~= all);
    }
    out
}

} // verus!

verus! {

/// The findings of the high-risk kinds in a text, in scanning order: payment
/// cards, Aadhaar numbers, PAN numbers, JWTs, private keys, API keys.
pub open spec fn high_risk_findings(text: Seq<char>) -> Seq<FindingView> {
    findings_of(PatternKind::PaymentCard, text) + findings_of(PatternKind::Aadhaar, text)
        + findings_of(PatternKind::Pan, text) + findings_of(PatternKind::Jwt, text)
        + findings_of(PatternKind::PrivateKey, text) + findings_of(PatternKind::ApiKey, text)
}

/// The observation findings in a text, in scanning order: emails, then phones.
pub open spec fn observation_findings(text: Seq<char>) -> Seq<FindingView> {
    findings_of(PatternKind::Email, text) + findings_of(PatternKind::Phone, text)
}

/// The compiled patterns of the PII scanner.
pub struct PiiPatterns {
    card: CompiledPattern,
    aadhaar: CompiledPattern,
    pan: CompiledPattern,
    jwt: CompiledPattern,
    private_key: CompiledPattern,
    api_key: CompiledPattern,
    email: CompiledPattern,
    phone: CompiledPattern,
}

impl PiiPatterns {
    /// Each slot holds the pattern of its kind.
    pub closed spec fn wf(&self) -> bool {
        &&& self.card.spec_kind() == PatternKind::PaymentCard
        &&& self.aadhaar.spec_kind() == PatternKind::Aadhaar
        &&& self.pan.spec_kind() == PatternKind::Pan
        &&& self.jwt.spec_kind() == PatternKind::Jwt
        &&& self.private_key.spec_kind() == PatternKind::PrivateKey
        &&& self.api_key.spec_kind() == PatternKind::ApiKey
        &&& self.email.spec_kind() == PatternKind::Email
        &&& self.phone.spec_kind() == PatternKind::Phone
    }

    /// Compiles all scanner patterns.
    pub fn new() -> (r: Self)
        ensures
            r.wf(),
    {
        PiiPatterns {
            card: CompiledPattern::new(PatternKind::PaymentCard),
            aadhaar: CompiledPattern::new(PatternKind::Aadhaar),
            pan: CompiledPattern::new(PatternKind::Pan),
            jwt: CompiledPattern::new(PatternKind::Jwt),
            private_key: CompiledPattern::new(PatternKind::PrivateKey),
            api_key: CompiledPattern::new(PatternKind::ApiKey),
            email: CompiledPattern::new(PatternKind::Email),
            phone: CompiledPattern::new(PatternKind::Phone),
        }
    }

    /// Scans for high-risk identifiers, in scanning order.
    pub fn scan_high_risk(&self, text: &str) -> (r: Vec<PatternFinding>)
        requires
            self.wf(),
        ensures
            findings_view(r@) == high_risk_findings(text@),
            spans_in_text(text@, findings_view(r@)),
    {
        let out: Vec<PatternFinding> = Vec::new();
        proof {
            assert(findings_view(out@) =~= Seq::<FindingView>::empty());
        }
        let out = collect_findings(&self.card, text, out);
        let out = collect_findings(&self.aadhaar, text, out);
        let out = collect_findings(&self.pan, text, out);
        let out = collect_findings(&self.jwt, text, out);
        let out = collect_findings(&self.private_key, text, out);
        let out = collect_findings(&self.api_key, text, out);
        proof {
            assert(findings_view(out@) =~= high_risk_findings(text@));
        }
        out
    }

    /// Scans for observation-level entities (emails, then phones).
    pub fn scan_observations(&self, text: &str) -> (r: Vec<PatternFinding>)
        requires
            self.wf(),
        ensures
            findings_view(r@) == observation_findings(text@),
            spans_in_text(text@, findings_view(r@)),
    {
        let out: Vec<PatternFinding> = Vec::new();
        proof {
            assert(findings_view(out@) =~= Seq::<FindingView>::empty());
        }
        let out = collect_findings(&self.email, text, out);
        let out = collect_findings(&self.phone, text, out);
        proof {
            assert(findings_view(out@) =~= observation_findings(text@));
        }
        out
    }
}

/// Scans text for high-risk structured PII: payment cards (regex + Luhn),
/// Aadhaar numbers (regex + Verhoeff), PAN numbers, and credentials (JWTs,
/// private keys, API keys). Identifier values are masked; credentials are
/// reported by a redaction label. Every finding's byte range lies within the
/// text, on character boundaries.
pub fn scan_high_risk_patterns(text: &str) -> (findings: Vec<PatternFinding>)
    ensures
        findings_view(findings@) == high_risk_findings(text@),
        spans_in_text(text@, findings_view(findings@)),
{
    let patterns = PiiPatterns::new();
    patterns.scan_high_risk(text)
}

/// Scans text for observation-level entities (emails, phones), masked. Every
/// finding's byte range lies within the text, on character boundaries.
pub fn scan_observation_patterns(text: &str) -> (findings: Vec<PatternFinding>)
    ensures
        findings_view(findings@) == observation_findings(text@),
        spans_in_text(text@, findings_view(findings@)),
{
    let patterns = PiiPatterns::new();
    patterns.scan_observations(text)
}

} // verus!
