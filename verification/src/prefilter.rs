//! Measurements and length screen of the Tier 0 heuristic prefilter.
//!
//! The prefilter blocks empty or oversized queries, queries in an unexpected
//! script and keyboard mashing. This module measures a query (trimmed and raw
//! byte lengths, how many characters belong to the expected scripts, and the
//! frequency of each character) and decides the length screen, which counts
//! characters; the script ratio and the character entropy are computed from
//! these counts by the caller.

use vstd::prelude::*;
use vstd::string::StringExecFns;
use vstd::utf8::encode_utf8;
use crate::text::{chars_of, string_of_chars, white_space, is_whitespace, decimal, push_decimal};

verus! {

broadcast use vstd::string::group_string_axioms;

/// The number of bytes of the UTF-8 encoding of a text.
pub open spec fn byte_len(s: Seq<char>) -> nat {
    encode_utf8(s).len()
}

/// The number of leading whitespace characters of a text.
pub open spec fn leading_ws(s: Seq<char>) -> nat
    decreases s.len(),
{
    if s.len() > 0 && white_space(s[0]) {
        1 + leading_ws(s.subrange(1, s.len() as int))
    } else {
        0
    }
}

/// The number of trailing whitespace characters of a text.
pub open spec fn trailing_ws(s: Seq<char>) -> nat
    decreases s.len(),
{
    if s.len() > 0 && white_space(s.last()) {
        1 + trailing_ws(s.drop_last())
    } else {
        0
    }
}

/// A text without its leading and trailing whitespace (what `str::trim` gives).
pub open spec fn trim_spec(s: Seq<char>) -> Seq<char> {
    let rest = s.subrange(leading_ws(s) as int, s.len() as int);
    rest.subrange(0, rest.len() - trailing_ws(rest))
}

proof fn lemma_leading_ws(s: Seq<char>)
    ensures
        leading_ws(s) <= s.len(),
        forall|i: int| 0 <= i < leading_ws(s) ==> white_space(#[trigger] s[i]),
        leading_ws(s) < s.len() ==> !white_space(s[leading_ws(s) as int]),
    decreases s.len(),
{
    if s.len() > 0 && white_space(s[0]) {
        let t = s.subrange(1, s.len() as int);
        lemma_leading_ws(t);
        assert forall|i: int| 0 <= i < leading_ws(s) implies white_space(#[trigger] s[i]) by {
            if i > 0 {
                assert(s[i] == t[i - 1]);
            }
        }
        if leading_ws(s) < s.len() {
            assert(s[leading_ws(s) as int] == t[leading_ws(t) as int]);
        }
    }
}

proof fn lemma_trailing_ws(s: Seq<char>)
    ensures
        trailing_ws(s) <= s.len(),
        forall|i: int| s.len() - trailing_ws(s) <= i < s.len() ==> white_space(#[trigger] s[i]),
        trailing_ws(s) < s.len() ==> !white_space(s[s.len() - trailing_ws(s) - 1]),
    decreases s.len(),
{
    if s.len() > 0 && white_space(s.last()) {
        let t = s.drop_last();
        lemma_trailing_ws(t);
        assert forall|i: int| s.len() - trailing_ws(s) <= i < s.len() implies white_space(#[trigger] s[i]) by {
            if i < s.len() - 1 {
                assert(s[i] == t[i]);
            }
        }
        if trailing_ws(s) < s.len() {
            assert(s[s.len() - trailing_ws(s) - 1] == t[t.len() - trailing_ws(t) - 1]);
        }
    }
}

proof fn lemma_leading_ws_exact(s: Seq<char>, k: int)
    requires
        0 <= k <= s.len(),
        forall|i: int| 0 <= i < k ==> white_space(#[trigger] s[i]),
        k < s.len() ==> !white_space(s[k]),
    ensures
        leading_ws(s) == k,
    decreases s.len(),
{
    if k > 0 {
        let t = s.subrange(1, s.len() as int);
        assert forall|i: int| 0 <= i < k - 1 implies white_space(#[trigger] t[i]) by {
            assert(t[i] == s[i + 1]);
        }
        if k - 1 < t.len() {
            assert(t[k - 1] == s[k]);
        }
        lemma_leading_ws_exact(t, k - 1);
    }
}

proof fn lemma_trailing_ws_exact(s: Seq<char>, k: int)
    requires
        0 <= k <= s.len(),
        forall|i: int| s.len() - k <= i < s.len() ==> white_space(#[trigger] s[i]),
        k < s.len() ==> !white_space(s[s.len() - k - 1]),
    ensures
        trailing_ws(s) == k,
    decreases s.len(),
{
    if k > 0 {
        let t = s.drop_last();
        assert forall|i: int| t.len() - (k - 1) <= i < t.len() implies white_space(#[trigger] t[i]) by {
            assert(t[i] == s[i]);
        }
        if k - 1 < t.len() {
            assert(t[t.len() - (k - 1) - 1] == s[s.len() - k - 1]);
        }
        assert(white_space(s[s.len() - 1]));
        lemma_trailing_ws_exact(t, k - 1);
    }
}

/// Removes leading and trailing whitespace from a query.
pub fn trim_text(s: &str) -> (r: String)
    ensures
        r@ == trim_spec(s@),
{
    let cs = chars_of(s);
    let n = cs.len();
    let mut a: usize = 0;
    while a < n && is_whitespace(cs[a])
        invariant
            a <= n,
            n == cs@.len(),
            forall|i: int| 0 <= i < a ==> white_space(#[trigger] cs@[i]),
        decreases n - a,
    {
        a = a + 1;
    }
    let mut b: usize = n;
    while b > a && is_whitespace(cs[b - 1])
        invariant
            a <= b <= n,
            n == cs@.len(),
            forall|i: int| b <= i < n ==> white_space(#[trigger] cs@[i]),
        decreases b,
    {
        b = b - 1;
    }
    let mut out: Vec<char> = Vec::new();
    let mut i: usize = a;
    while i < b
        invariant
            a <= i <= b <= n,
            n == cs@.len(),
            out@ == cs@.subrange(a as int, i as int),
        decreases b - i,
    {
        out.push(cs[i]);
        proof {
            assert(cs@.subrange(a as int, i as int + 1) =~= cs@.subrange(a as int, i as int).push(cs@[i as int]));
        }
        i = i + 1;
    }
    proof {
        let t = cs@;
        lemma_leading_ws_exact(t, a as int);
        let rest = t.subrange(a as int, t.len() as int);
        let k = (n - b) as int;
        assert forall|j: int| rest.len() - k <= j < rest.len() implies white_space(#[trigger] rest[j]) by {
            assert(rest[j] == t[j + a]);
        }
        if k < rest.len() {
            assert(rest[rest.len() - k - 1] == t[b - 1]);
        }
        lemma_trailing_ws_exact(rest, k);
        assert(out@ =~= trim_spec(s@));
    }
    string_of_chars(&out)
}

/// The outcome of the prefilter's length screen.
#[derive(Debug, Clone, Copy, PartialEq, Eq, Structural)]
pub enum LengthCheck {
    /// The trimmed query has fewer characters than the minimum.
    TooShort { len: usize },
    /// The raw query has more characters than the maximum.
    TooLong { len: usize },
    /// The query is within the length limits.
    WithinLimits,
}

/// The length screen, in characters: a trimmed query shorter than
/// `min_chars` is too short; otherwise a raw query longer than `max_chars`
/// is too long.
pub open spec fn length_check_spec(query: Seq<char>, min_chars: usize, max_chars: usize) -> LengthCheck {
    let t = trim_spec(query).len();
    let l = query.len();
    if t < min_chars {
        LengthCheck::TooShort { len: t as usize }
    } else if l > max_chars {
        LengthCheck::TooLong { len: l as usize }
    } else {
        LengthCheck::WithinLimits
    }
}

/// Applies the prefilter's length screen to a query.
pub fn check_length(query: &str, min_chars: usize, max_chars: usize) -> (r: LengthCheck)
    ensures
        r == length_check_spec(query@, min_chars, max_chars),
{
    let trimmed = trim_text(query);
    let t = chars_of(trimmed.as_str()).len();
    let l = chars_of(query).len();
    if t < min_chars {
        LengthCheck::TooShort { len: t }
    } else if l > max_chars {
        LengthCheck::TooLong { len: l }
    } else {
        LengthCheck::WithinLimits
    }
}

/// The message of a query that is too short.
pub open spec fn too_short_text(len: usize, min_chars: usize) -> Seq<char> {
    "query too short (length="@ + decimal(len as nat) + ", min_chars="@ + decimal(min_chars as nat) + ")"@
}

/// The message of a query that is too long.
pub open spec fn too_long_text(len: usize, max_chars: usize) -> Seq<char> {
    "query exceeds maximum size (length="@ + decimal(len as nat) + ", max_chars="@ + decimal(max_chars as nat)
        + ")"@
}

impl LengthCheck {
    /// The block message of a failed length screen, given the limits; `None`
    /// when the query is within limits.
    pub fn message(&self, min_chars: usize, max_chars: usize) -> (m: Option<String>)
        ensures
            match *self {
                LengthCheck::TooShort { len } => m matches Some(s) && s@ == too_short_text(len, min_chars),
                LengthCheck::TooLong { len } => m matches Some(s) && s@ == too_long_text(len, max_chars),
                LengthCheck::WithinLimits => m is None,
            },
    {
        match self {
            LengthCheck::TooShort { len } => {
                let mut s = String::from_str("query too short (length=");
                push_decimal(&mut s, *len as u64);
                s.append(", min_chars=");
                push_decimal(&mut s, min_chars as u64);
                s.append(")");
                Some(s)
            },
            LengthCheck::TooLong { len } => {
                let mut s = String::from_str("query exceeds maximum size (length=");
                push_decimal(&mut s, *len as u64);
                s.append(", max_chars=");
                push_decimal(&mut s, max_chars as u64);
                s.append(")");
                Some(s)
            },
            LengthCheck::WithinLimits => None,
        }
    }
}

/// Queries with at least this many trimmed bytes are screened for entropy;
/// shorter ones are not, to spare short words.
pub open spec fn entropy_min_len() -> nat {
    16
}

/// Whether the entropy screen applies to a query of this trimmed length.
pub fn entropy_applies(trimmed_len: usize) -> (b: bool)
    ensures
        b == (trimmed_len >= entropy_min_len()),
{
    trimmed_len >= 16
}

} // verus!

verus! {

/// Whether a character is alphabetic or numeric in Unicode (what
/// `char::is_alphanumeric` tests).
pub uninterp spec fn alphanumeric(c: char) -> bool;

/// Calls `char::is_alphanumeric`, which tests the Unicode Alphabetic and
/// Numeric properties.
#[verifier::external_body]
fn is_alphanumeric(c: char) -> (b: bool)
    ensures
        b == alphanumeric(c),
{
    c.is_alphanumeric()
}

/// Whether a character belongs to the scripts the prefilter expects: ASCII
/// (ASCII punctuation included), alphanumeric, or whitespace.
pub open spec fn expected_script(c: char) -> bool {
    (c as u32) < 0x80 || alphanumeric(c) || white_space(c)
}

/// The number of characters of a text in the expected scripts.
pub open spec fn expected_count(s: Seq<char>) -> nat
    decreases s.len(),
{
    if s.len() == 0 {
        0
    } else {
        expected_count(s.drop_last()) + if expected_script(s.last()) { 1nat } else { 0nat }
    }
}

/// Every ASCII character (punctuation included) counts as expected: a query
/// made only of ASCII characters has all its characters in the expected
/// scripts, so its script ratio is 1; and no query has more expected
/// characters than characters.
pub proof fn law_ascii_queries_are_fully_expected(q: Seq<char>)
    ensures
        (forall|i: int| 0 <= i < q.len() ==> (#[trigger] q[i] as u32) < 0x80) ==> expected_count(q) == q.len(),
        expected_count(q) <= q.len(),
    decreases q.len(),
{
    if q.len() > 0 {
        law_ascii_queries_are_fully_expected(q.drop_last());
        if forall|i: int| 0 <= i < q.len() ==> (#[trigger] q[i] as u32) < 0x80 {
            assert forall|i: int| 0 <= i < q.drop_last().len() implies (#[trigger] q.drop_last()[i] as u32) < 0x80 by {
                assert(q.drop_last()[i] == q[i]);
            }
            assert((q[q.len() - 1] as u32) < 0x80);
        }
    }
}

/// The number of occurrences of a character in a text.
pub open spec fn occurrences(s: Seq<char>, c: char) -> nat
    decreases s.len(),
{
    if s.len() == 0 {
        0
    } else {
        occurrences(s.drop_last(), c) + if s.last() == c { 1nat } else { 0nat }
    }
}

proof fn lemma_occurrences_bound(s: Seq<char>, c: char)
    ensures
        occurrences(s, c) <= s.len(),
    decreases s.len(),
{
    if s.len() > 0 {
        lemma_occurrences_bound(s.drop_last(), c);
    }
}

proof fn lemma_occurrences_positive(s: Seq<char>, k: int)
    requires
        0 <= k < s.len(),
    ensures
        occurrences(s, s[k]) > 0,
    decreases s.len(),
{
    if k < s.len() - 1 {
        assert(s.drop_last()[k] == s[k]);
        lemma_occurrences_positive(s.drop_last(), k);
    }
}

/// The character table of a text: each distinct character once, in order of
/// first appearance, with its number of occurrences.
pub open spec fn frequency_table(s: Seq<char>, f: Seq<(char, usize)>) -> bool {
    &&& forall|i: int, j: int| 0 <= i < j < f.len() ==> f[i].0 != f[j].0
    &&& forall|i: int| 0 <= i < f.len() ==> f[i].1 == occurrences(s, #[trigger] f[i].0)
    &&& forall|i: int| 0 <= i < f.len() ==> s.contains(#[trigger] f[i].0)
    &&& forall|k: int| #![trigger s[k]] 0 <= k < s.len() ==> exists|i: int| #![trigger f[i]] 0 <= i < f.len() && f[i].0 == s[k]
}

/// What the prefilter measures of a query.
#[derive(Debug, Clone)]
pub struct QueryMeasures {
    /// Bytes of the query without leading and trailing whitespace.
    pub trimmed_len: usize,
    /// Bytes of the query.
    pub len: usize,
    /// Characters of the query in the expected scripts.
    pub expected_chars: usize,
    /// Characters of the query.
    pub total_chars: usize,
    /// Each distinct character of the query with its number of occurrences.
    pub frequencies: Vec<(char, usize)>,
}

/// Counts the characters of a text in the expected scripts.
pub fn count_expected(s: &str) -> (n: usize)
    ensures
        n == expected_count(s@),
{
    let cs = chars_of(s);
    let mut n: usize = 0;
    let mut i: usize = 0;
    while i < cs.len()
        invariant
            i <= cs@.len(),
            cs@ == s@,
            n == expected_count(cs@.take(i as int)),
            n <= i,
        decreases cs@.len() - i,
    {
        let c = cs[i];
        proof {
            assert(cs@.take(i as int + 1).drop_last() =~= cs@.take(i as int));
        }
        let ascii = (c as u32) < 0x80;
        if ascii || is_alphanumeric(c) || is_whitespace(c) {
            n = n + 1;
        }
        i = i + 1;
    }
    proof {
        assert(cs@.take(cs@.len() as int) =~= cs@);
    }
    n
}

/// Counts how often each distinct character occurs in a text.
pub fn char_frequencies(s: &str) -> (f: Vec<(char, usize)>)
    ensures
        frequency_table(s@, f@),
{
    let cs = chars_of(s);
    let mut f: Vec<(char, usize)> = Vec::new();
    let mut i: usize = 0;
    while i < cs.len()
        invariant
            i <= cs@.len(),
            cs@ == s@,
            frequency_table(cs@.take(i as int), f@),
        decreases cs@.len() - i,
    {
        let c = cs[i];
        let ghost prev = cs@.take(i as int);
        let ghost next = cs@.take(i as int + 1);
        proof {
            assert(next.drop_last() =~= prev);
            assert(next.last() == c);
            lemma_occurrences_bound(prev, c);
        }
        let mut j: usize = 0;
        while j < f.len() && f[j].0 != c
            invariant
                j <= f@.len(),
                forall|k: int| 0 <= k < j ==> f@[k].0 != c,
            decreases f@.len() - j,
        {
            j = j + 1;
        }
        let ghost old_f = f@;
        if j < f.len() {
            let count = f[j].1;
            proof {
                assert(old_f[j as int].1 == occurrences(prev, c));
            }
            f.set(j, (c, count + 1));
            proof {
                assert forall|a: int| 0 <= a < f@.len() implies f@[a].1 == occurrences(next, #[trigger] f@[a].0) by {
                    if a != j {
                        assert(f@[a] == old_f[a]);
                    }
                }
                assert forall|a: int| 0 <= a < f@.len() implies next.contains(#[trigger] f@[a].0) by {
                    if a == j {
                        assert(next[i as int] == c);
                    } else {
                        assert(f@[a] == old_f[a]);
                        let w = choose|w: int| 0 <= w < prev.len() && prev[w] == old_f[a].0;
                        assert(next[w] == prev[w]);
                    }
                }
                assert forall|k: int| #![trigger next[k]] 0 <= k < next.len() implies exists|a: int| #![trigger f@[a]] 0 <= a < f@.len() && f@[a].0 == next[k] by {
                    if k < i {
                        assert(next[k] == prev[k]);
                        let a = choose|a: int| 0 <= a < old_f.len() && old_f[a].0 == prev[k];
                        assert(f@[a].0 == old_f[a].0);
                    } else {
                        assert(f@[j as int].0 == next[k]);
                    }
                }
            }
        } else {
            proof {
                assert(!prev.contains(c)) by {
                    if prev.contains(c) {
                        let k = choose|k: int| 0 <= k < prev.len() && prev[k] == c;
                        let a = choose|a: int| 0 <= a < old_f.len() && old_f[a].0 == prev[k];
                    }
                }
                assert(occurrences(prev, c) == 0) by {
                    if occurrences(prev, c) != 0 {
                        lemma_occurrences_zero(prev, c);
                    }
                }
            }
            f.push((c, 1));
            proof {
                assert forall|a: int| 0 <= a < f@.len() implies f@[a].1 == occurrences(next, #[trigger] f@[a].0) by {
                    if a < old_f.len() {
                        assert(f@[a] == old_f[a]);
                    }
                }
                assert forall|a: int| 0 <= a < f@.len() implies next.contains(#[trigger] f@[a].0) by {
                    if a == old_f.len() {
                        assert(next[i as int] == c);
                    } else {
                        assert(f@[a] == old_f[a]);
                        let w = choose|w: int| 0 <= w < prev.len() && prev[w] == old_f[a].0;
                        assert(next[w] == prev[w]);
                    }
                }
                assert forall|k: int| #![trigger next[k]] 0 <= k < next.len() implies exists|a: int| #![trigger f@[a]] 0 <= a < f@.len() && f@[a].0 == next[k] by {
                    if k < i {
                        assert(next[k] == prev[k]);
                        let a = choose|a: int| 0 <= a < old_f.len() && old_f[a].0 == prev[k];
                        assert(f@[a].0 == old_f[a].0);
                    } else {
                        assert(f@[old_f.len() as int].0 == next[k]);
                    }
                }
            }
        }
        i = i + 1;
    }
    proof {
        assert(cs@.take(cs@.len() as int) =~= cs@);
    }
    f
}

proof fn lemma_occurrences_zero(s: Seq<char>, c: char)
    requires
        !s.contains(c),
    ensures
        occurrences(s, c) == 0,
    decreases s.len(),
{
    if s.len() > 0 {
        assert(!s.drop_last().contains(c)) by {
            if s.drop_last().contains(c) {
                let k = choose|k: int| 0 <= k < s.drop_last().len() && s.drop_last()[k] == c;
                assert(s[k] == c);
            }
        }
        lemma_occurrences_zero(s.drop_last(), c);
        assert(s[s.len() - 1] != c);
    }
}

/// Measures a query for the prefilter.
pub fn measure_query(query: &str) -> (m: QueryMeasures)
    ensures
        m.trimmed_len == byte_len(trim_spec(query@)),
        m.len == byte_len(query@),
        m.expected_chars == expected_count(query@),
        m.total_chars == query@.len(),
        (forall|i: int| 0 <= i < query@.len() ==> (#[trigger] query@[i] as u32) < 0x80)
            ==> m.expected_chars == m.total_chars,
        frequency_table(query@, m.frequencies@),
{
    proof {
        law_ascii_queries_are_fully_expected(query@);
    }
    let trimmed = trim_text(query);
    let trimmed_len = trimmed.as_str().as_bytes().len();
    let len = query.as_bytes().len();
    let expected_chars = count_expected(query);
    let total_chars = chars_of(query).len();
    let frequencies = char_frequencies(query);
    QueryMeasures { trimmed_len, len, expected_chars, total_chars, frequencies }
}

} // verus!

verus! {

/// The sum of the counts of a character table.
pub open spec fn count_sum(f: Seq<(char, usize)>) -> int
    decreases f.len(),
{
    if f.len() == 0 {
        0
    } else {
        count_sum(f.drop_last()) + f.last().1
    }
}

/// The sum, over the characters of a table, of their occurrences in a text.
spec fn occurrence_sum(s: Seq<char>, f: Seq<(char, usize)>) -> int
    decreases f.len(),
{
    if f.len() == 0 {
        0
    } else {
        occurrence_sum(s, f.drop_last()) + occurrences(s, f.last().0)
    }
}

/// How many entries of a table are for character `x`.
spec fn entries_for(f: Seq<(char, usize)>, x: char) -> int
    decreases f.len(),
{
    if f.len() == 0 {
        0
    } else {
        entries_for(f.drop_last(), x) + if f.last().0 == x { 1int } else { 0int }
    }
}

proof fn lemma_entries_for_distinct(f: Seq<(char, usize)>, x: char)
    requires
        forall|i: int, j: int| 0 <= i < j < f.len() ==> f[i].0 != f[j].0,
    ensures
        entries_for(f, x) == if exists|i: int| 0 <= i < f.len() && f[i].0 == x { 1int } else { 0int },
    decreases f.len(),
{
    if f.len() > 0 {
        let g = f.drop_last();
        assert forall|i: int, j: int| 0 <= i < j < g.len() implies g[i].0 != g[j].0 by {
            assert(g[i] == f[i] && g[j] == f[j]);
        }
        lemma_entries_for_distinct(g, x);
        if f.last().0 == x {
            assert(f[f.len() - 1].0 == x);
            if exists|i: int| 0 <= i < g.len() && g[i].0 == x {
                let i = choose|i: int| 0 <= i < g.len() && g[i].0 == x;
                assert(f[i].0 == f[f.len() - 1].0);
            }
        } else {
            if exists|i: int| 0 <= i < f.len() && f[i].0 == x {
                let i = choose|i: int| 0 <= i < f.len() && f[i].0 == x;
                assert(i < g.len());
                assert(g[i].0 == x);
            }
            if exists|i: int| 0 <= i < g.len() && g[i].0 == x {
                let i = choose|i: int| 0 <= i < g.len() && g[i].0 == x;
                assert(f[i].0 == x);
            }
        }
    }
}

proof fn lemma_occurrence_sum_push(s: Seq<char>, x: char, f: Seq<(char, usize)>)
    ensures
        occurrence_sum(s.push(x), f) == occurrence_sum(s, f) + entries_for(f, x),
    decreases f.len(),
{
    if f.len() > 0 {
        lemma_occurrence_sum_push(s, x, f.drop_last());
        assert(s.push(x).drop_last() =~= s);
    }
}

proof fn lemma_occurrence_sum_empty(f: Seq<(char, usize)>)
    ensures
        occurrence_sum(Seq::empty(), f) == 0,
    decreases f.len(),
{
    if f.len() > 0 {
        lemma_occurrence_sum_empty(f.drop_last());
    }
}

proof fn lemma_occurrence_sum_covers(s: Seq<char>, f: Seq<(char, usize)>)
    requires
        forall|i: int, j: int| 0 <= i < j < f.len() ==> f[i].0 != f[j].0,
        forall|k: int| #![trigger s[k]] 0 <= k < s.len() ==> exists|i: int| #![trigger f[i]] 0 <= i < f.len() && f[i].0 == s[k],
    ensures
        occurrence_sum(s, f) == s.len(),
    decreases s.len(),
{
    if s.len() == 0 {
        lemma_occurrence_sum_empty(f);
        assert(s =~= Seq::<char>::empty());
    } else {
        let t = s.drop_last();
        let x = s.last();
        assert forall|k: int| #![trigger t[k]] 0 <= k < t.len() implies exists|i: int| #![trigger f[i]] 0 <= i < f.len() && f[i].0 == t[k] by {
            assert(t[k] == s[k]);
        }
        lemma_occurrence_sum_covers(t, f);
        lemma_occurrence_sum_push(t, x, f);
        assert(t.push(x) =~= s);
        lemma_entries_for_distinct(f, x);
        assert(s[s.len() - 1] == x);
    }
}

proof fn lemma_count_sum_is_occurrence_sum(s: Seq<char>, f: Seq<(char, usize)>)
    requires
        forall|i: int| 0 <= i < f.len() ==> f[i].1 == occurrences(s, #[trigger] f[i].0),
    ensures
        count_sum(f) == occurrence_sum(s, f),
    decreases f.len(),
{
    if f.len() > 0 {
        let g = f.drop_last();
        assert forall|i: int| 0 <= i < g.len() implies g[i].1 == occurrences(s, #[trigger] g[i].0) by {
            assert(g[i] == f[i]);
        }
        lemma_count_sum_is_occurrence_sum(s, g);
        assert(f[f.len() - 1].1 == occurrences(s, f[f.len() - 1].0));
    }
}

/// The counts of a query's character table add up to its number of
/// characters, so that count / total is a probability distribution (the one
/// whose entropy the prefilter measures).
pub proof fn law_frequencies_sum_to_length(s: Seq<char>, f: Seq<(char, usize)>)
    requires
        frequency_table(s, f),
    ensures
        count_sum(f) == s.len(),
{
    lemma_count_sum_is_occurrence_sum(s, f);
    lemma_occurrence_sum_covers(s, f);
}

} // verus!
