//! What a model's exported configuration (the `config.json` of a HuggingFace
//! export) decides: the output activation, the usable input length, and the
//! position of each class label.

use vstd::prelude::*;
use vstd::string::StringExecFns;
use crate::text::{chars_of, decimal, push_decimal};
use crate::error::InferenceError;

verus! {

/// How raw logits are turned into probabilities. A multi-label head is
/// trained with one binary decision per class, so its logits go through a
/// sigmoid each; softmax would normalise independent scores against each other.
#[derive(Debug, Clone, Copy, PartialEq, Eq, Structural)]
pub enum Activation {
    /// Single-label head: classes are mutually exclusive.
    Softmax,
    /// Multi-label head: each class is an independent binary decision.
    Sigmoid,
}

/// The view of an optional text.
pub open spec fn opt_view(t: Option<&str>) -> Option<Seq<char>> {
    match t {
        Some(s) => Some(s@),
        None => None,
    }
}

/// The activation for a `problem_type`: sigmoid for
/// "multi_label_classification", softmax otherwise (single-label,
/// regression, another value, or none at all).
pub open spec fn activation_spec(problem_type: Option<Seq<char>>) -> Activation {
    if problem_type == Some("multi_label_classification"@) {
        Activation::Sigmoid
    } else {
        Activation::Softmax
    }
}

/// Whether two texts are equal.
fn same_text(a: &str, b: &str) -> (r: bool)
    ensures
        r == (a@ == b@),
{
    String::from_str(a) == String::from_str(b)
}

/// Determines the output activation from the configuration's `problem_type`.
pub fn activation_for_problem_type(problem_type: Option<&str>) -> (a: Activation)
    ensures
        a == activation_spec(opt_view(problem_type)),
{
    match problem_type {
        Some(p) => if same_text(p, "multi_label_classification") { Activation::Sigmoid } else { Activation::Softmax },
        None => Activation::Softmax,
    }
}

/// The input length used when the configuration does not give a usable one.
pub open spec fn default_max_sequence_length() -> usize {
    512
}

/// Whether a model type belongs to the RoBERTa family, whose position ids
/// start past the padding index.
pub open spec fn roberta_family(model_type: Seq<char>) -> bool {
    model_type == "roberta"@ || model_type == "xlm-roberta"@ || model_type == "camembert"@
}

/// The usable input length: `max_position_embeddings`, less the two reserved
/// positions for the RoBERTa family (saturating), or 512 when absent or zero.
pub open spec fn max_sequence_length_spec(max_position_embeddings: Option<u64>, model_type: Option<Seq<char>>) -> usize {
    match max_position_embeddings {
        None => default_max_sequence_length(),
        Some(raw) => {
            let raw = raw as usize;
            let family = match model_type { Some(t) => roberta_family(t), None => false };
            let usable = if family { if raw >= 2 { (raw - 2) as usize } else { 0 } } else { raw };
            if usable == 0 { default_max_sequence_length() } else { usable }
        },
    }
}

/// Reads the model's maximum input length from the configuration's
/// `max_position_embeddings` and `model_type`. Exceeding the position table
/// makes the forward pass fail, so the RoBERTa family gives up its two
/// reserved positions.
pub fn usable_max_sequence_length(max_position_embeddings: Option<u64>, model_type: Option<&str>) -> (n: usize)
    ensures
        n == max_sequence_length_spec(max_position_embeddings, opt_view(model_type)),
{
    match max_position_embeddings {
        None => 512,
        Some(raw) => {
            let raw = raw as usize;
            let family = match model_type {
                Some(t) => same_text(t, "roberta") || same_text(t, "xlm-roberta") || same_text(t, "camembert"),
                None => false,
            };
            let usable = if family { raw.saturating_sub(2) } else { raw };
            if usable == 0 { 512 } else { usable }
        },
    }
}

/// The value of a text of ASCII decimal digits.
pub open spec fn digits_value(s: Seq<char>) -> int
    decreases s.len(),
{
    if s.len() == 0 {
        0
    } else {
        digits_value(s.drop_last()) * 10 + (s.last() as int - '0' as int)
    }
}

/// Whether every character of a text is an ASCII decimal digit.
pub open spec fn all_digits(s: Seq<char>) -> bool {
    forall|i: int| 0 <= i < s.len() ==> '0' <= #[trigger] s[i] && s[i] <= '9'
}

/// What `str::parse::<usize>` gives: an optional leading '+' and then one or
/// more ASCII digits whose value fits in `usize`.
pub open spec fn parse_index_spec(s: Seq<char>) -> Option<usize> {
    let body = if s.len() > 0 && s[0] == '+' { s.subrange(1, s.len() as int) } else { s };
    if body.len() > 0 && all_digits(body) && digits_value(body) <= usize::MAX {
        Some(digits_value(body) as usize)
    } else {
        None
    }
}

proof fn lemma_digits_value_monotone(s: Seq<char>, k: int)
    requires
        0 <= k <= s.len(),
        all_digits(s),
    ensures
        0 <= digits_value(s.take(k)) <= digits_value(s),
    decreases s.len(),
{
    if k < s.len() {
        let t = s.drop_last();
        assert(all_digits(t)) by {
            assert forall|i: int| 0 <= i < t.len() implies '0' <= #[trigger] t[i] && t[i] <= '9' by {
                assert(t[i] == s[i]);
            }
        }
        assert(s.take(k) =~= t.take(k));
        lemma_digits_value_monotone(t, k);
        lemma_digits_value_monotone(t, t.len() as int);
        assert(t.take(t.len() as int) =~= t);
        assert('0' <= s[s.len() - 1]);
    } else {
        assert(s.take(k) =~= s);
        lemma_digits_value_nonneg(s);
    }
}

proof fn lemma_digits_value_nonneg(s: Seq<char>)
    requires
        all_digits(s),
    ensures
        digits_value(s) >= 0,
    decreases s.len(),
{
    if s.len() > 0 {
        let t = s.drop_last();
        assert(all_digits(t)) by {
            assert forall|i: int| 0 <= i < t.len() implies '0' <= #[trigger] t[i] && t[i] <= '9' by {
                assert(t[i] == s[i]);
            }
        }
        lemma_digits_value_nonneg(t);
        assert('0' <= s[s.len() - 1]);
    }
}

/// Parses a label index the way `str::parse::<usize>` does.
pub fn parse_index(s: &str) -> (r: Option<usize>)
    ensures
        r == parse_index_spec(s@),
{
    let cs = chars_of(s);
    let start: usize = if cs.len() > 0 && cs[0] == '+' { 1 } else { 0 };
    let ghost body = if s@.len() > 0 && s@[0] == '+' { s@.subrange(1, s@.len() as int) } else { s@ };
    proof {
        assert(body =~= cs@.subrange(start as int, cs@.len() as int));
    }
    if start == cs.len() {
        return None;
    }
    // First pass: every character must be a digit.
    let mut i: usize = start;
    while i < cs.len()
        invariant
            start <= i <= cs@.len(),
            cs@ == s@,
            body =~= cs@.subrange(start as int, cs@.len() as int),
            body == (if s@.len() > 0 && s@[0] == '+' { s@.subrange(1, s@.len() as int) } else { s@ }),
            body.len() > 0,
            forall|j: int| start <= j < i ==> '0' <= #[trigger] cs@[j] && cs@[j] <= '9',
        decreases cs@.len() - i,
    {
        if !('0' <= cs[i] && cs[i] <= '9') {
            proof {
                assert(body[i - start] == cs@[i as int]);
            }
            return None;
        }
        i = i + 1;
    }
    proof {
        assert forall|j: int| 0 <= j < body.len() implies '0' <= #[trigger] body[j] && body[j] <= '9' by {
            assert(body[j] == cs@[j + start]);
        }
    }
    // Second pass: accumulate the value, stopping on overflow.
    let mut v: usize = 0;
    let mut k: usize = start;
    while k < cs.len()
        invariant
            start <= k <= cs@.len(),
            cs@ == s@,
            body =~= cs@.subrange(start as int, cs@.len() as int),
            body == (if s@.len() > 0 && s@[0] == '+' { s@.subrange(1, s@.len() as int) } else { s@ }),
            body.len() > 0,
            all_digits(body),
            v == digits_value(body.take(k - start)),
        decreases cs@.len() - k,
    {
        proof {
            assert(body[k - start] == cs@[k as int]);
            assert('0' <= body[k - start] && body[k - start] <= '9');
            assert(body.take(k - start + 1).drop_last() =~= body.take(k - start));
            assert(body.take(k - start + 1).last() == cs@[k as int]);
        }
        let d = (cs[k] as u32 - '0' as u32) as usize;
        match v.checked_mul(10) {
            None => {
                proof {
                    lemma_digits_value_monotone(body, k - start + 1);
                    lemma_digits_value_nonneg(body.take(k - start));
                    assert(body.take(body.len() as int) =~= body);
                }
                return None;
            },
            Some(t) => match t.checked_add(d) {
                None => {
                    proof {
                        lemma_digits_value_monotone(body, k - start + 1);
                    }
                    return None;
                },
                Some(u) => {
                    v = u;
                },
            },
        }
        k = k + 1;
    }
    proof {
        assert(body.take(body.len() as int) =~= body);
    }
    Some(v)
}

} // verus!

verus! {

/// An `id2label` entry of a configuration: the key, and the label when the
/// value is a string.
pub type LabelEntry = (String, Option<String>);

/// The plain values of an `id2label` entry.
pub open spec fn entry_view(e: LabelEntry) -> (Seq<char>, Option<Seq<char>>) {
    (e.0@, match e.1 { Some(l) => Some(l@), None => None })
}

/// The plain values of a list of `id2label` entries.
pub open spec fn entries_view(entries: Seq<LabelEntry>) -> Seq<(Seq<char>, Option<Seq<char>>)> {
    entries.map_values(|e: LabelEntry| entry_view(e))
}

/// The texts of a list of strings.
pub open spec fn texts(v: Seq<String>) -> Seq<Seq<char>> {
    v.map_values(|s: String| s@)
}

/// The index-to-label map of `id2label` entries, taken in order: an entry
/// counts when its key parses as an index and its value is a string, and a
/// later entry for the same index replaces an earlier one.
pub open spec fn label_map(entries: Seq<(Seq<char>, Option<Seq<char>>)>) -> Map<int, Seq<char>>
    decreases entries.len(),
{
    if entries.len() == 0 {
        Map::empty()
    } else {
        let m = label_map(entries.drop_last());
        let e = entries.last();
        match (parse_index_spec(e.0), e.1) {
            (Some(i), Some(l)) => m.insert(i as int, l),
            _ => m,
        }
    }
}

/// The largest index among the entries that count (key parses as an index,
/// value is a string), if any.
pub open spec fn max_label_index(entries: Seq<(Seq<char>, Option<Seq<char>>)>) -> Option<int>
    decreases entries.len(),
{
    if entries.len() == 0 {
        None
    } else {
        let rest = max_label_index(entries.drop_last());
        let e = entries.last();
        match (parse_index_spec(e.0), e.1) {
            (Some(i), Some(_)) => match rest {
                Some(m) => Some(if i > m { i as int } else { m }),
                None => Some(i as int),
            },
            _ => rest,
        }
    }
}

/// The name of a class that `id2label` leaves out: `LABEL_` and its index,
/// as HuggingFace names classes by default.
pub open spec fn default_label(k: int) -> Seq<char> {
    "LABEL_"@ + decimal(k as nat)
}

/// The class labels laid out by logit index: one position for each index up
/// to the largest one in `id2label`, holding that index's label, or the
/// default name where `id2label` has none. Without any usable entry there
/// is no layout.
pub open spec fn label_layout(entries: Seq<(Seq<char>, Option<Seq<char>>)>) -> Seq<Seq<char>> {
    match max_label_index(entries) {
        None => Seq::empty(),
        Some(mx) => Seq::new(
            (mx + 1) as nat,
            |k: int| if label_map(entries).contains_key(k) { label_map(entries)[k] } else { default_label(k) },
        ),
    }
}

/// Every index in the entries leaves room for a position after it, so the
/// layout's length fits in `usize`.
pub open spec fn indices_fit(entries: Seq<(Seq<char>, Option<Seq<char>>)>) -> bool {
    forall|i: int| 0 <= i < entries.len()
        ==> (#[trigger] parse_index_spec(entries[i].0) matches Some(x) ==> x < usize::MAX)
}

proof fn lemma_label_keys_bounded(entries: Seq<(Seq<char>, Option<Seq<char>>)>, k: int)
    ensures
        label_map(entries).contains_key(k) ==> (max_label_index(entries) matches Some(m) && 0 <= k <= m),
        max_label_index(entries) matches Some(m) ==> m >= 0,
    decreases entries.len(),
{
    if entries.len() > 0 {
        lemma_label_keys_bounded(entries.drop_last(), k);
    }
}

/// Whether the layout of the entries' labels fits in memory addresses: no
/// index is `usize::MAX`.
pub fn label_indices_fit(entries: &Vec<LabelEntry>) -> (b: bool)
    ensures
        b == indices_fit(entries_view(entries@)),
{
    let ghost v = entries_view(entries@);
    let mut i: usize = 0;
    while i < entries.len()
        invariant
            i <= entries@.len(),
            v == entries_view(entries@),
            forall|j: int| 0 <= j < i ==> (#[trigger] parse_index_spec(v[j].0) matches Some(x) ==> x < usize::MAX),
        decreases entries@.len() - i,
    {
        proof {
            assert(v[i as int] == entry_view(entries@[i as int]));
        }
        match parse_index(entries[i].0.as_str()) {
            Some(x) => {
                if x == usize::MAX {
                    proof {
                        assert(parse_index_spec(v[i as int].0) == Some(x));
                    }
                    return false;
                }
            },
            None => {},
        }
        i = i + 1;
    }
    true
}

fn default_label_string(k: usize) -> (s: String)
    ensures
        s@ == default_label(k as int),
{
    let mut s = String::from_str("LABEL_");
    push_decimal(&mut s, k as u64);
    proof {
        reveal_strlit("LABEL_");
    }
    s
}

/// Lays out the class labels of a configuration's `id2label` entries by logit
/// index, so that each label keeps the position of the logit it names; an
/// index that `id2label` leaves out gets the default name `LABEL_<index>`.
/// Without any usable entry the result is empty.
pub fn labels_by_index(entries: &Vec<LabelEntry>) -> (r: Vec<String>)
    requires
        indices_fit(entries_view(entries@)),
    ensures
        texts(r@) == label_layout(entries_view(entries@)),
{
    let ghost v = entries_view(entries@);
    let mut r: Vec<String> = Vec::new();
    let mut n: usize = 0;
    proof {
        assert(texts(r@) =~= label_layout(v.take(0)));
    }
    while n < entries.len()
        invariant
            n <= entries@.len(),
            v == entries_view(entries@),
            indices_fit(v),
            texts(r@) == label_layout(v.take(n as int)),
        decreases entries@.len() - n,
    {
        let ghost pre = v.take(n as int);
        let ghost post = v.take(n as int + 1);
        proof {
            assert(post.drop_last() =~= pre);
            assert(post.last() == v[n as int]);
            assert(v[n as int] == entry_view(entries@[n as int]));
        }
        let entry = &entries[n];
        let parsed = parse_index(entry.0.as_str());
        match (parsed, &entry.1) {
            (Some(idx), Some(label)) => {
                proof {
                    assert(parse_index_spec(v[n as int].0) == Some(idx));
                }
                let ghost old_len = r@.len();
                let ghost old_texts = texts(r@);
                proof {
                    lemma_label_keys_bounded(pre, 0);
                    assert(texts(r@).len() == r@.len());
                    match max_label_index(pre) {
                        Some(mx) => {
                            assert(label_layout(pre).len() == mx + 1);
                        },
                        None => {
                            assert(label_layout(pre).len() == 0);
                        },
                    }
                    assert(old_len == match max_label_index(pre) { Some(mx) => mx + 1, None => 0int });
                }
                while r.len() <= idx
                    invariant
                        idx < usize::MAX,
                        old_len <= r@.len(),
                        r@.len() == old_len || r@.len() <= idx + 1,
                        forall|k: int| 0 <= k < r@.len() ==> #[trigger] texts(r@)[k]
                            == (if k < old_len { old_texts[k] } else { default_label(k) }),
                    decreases idx + 1 - r@.len(),
                {
                    let d = default_label_string(r.len());
                    let ghost before = texts(r@);
                    r.push(d);
                    proof {
                        assert(texts(r@) =~= before.push(d@));
                    }
                }
                let ghost extended = texts(r@);
                r.set(idx, label.clone());
                proof {
                    assert(texts(r@) =~= extended.update(idx as int, label@));
                    let m = label_map(pre);
                    let m2 = label_map(post);
                    assert(m2 == m.insert(idx as int, label@));
                    let mx2 = match max_label_index(pre) {
                        Some(mx) => if idx > mx { idx as int } else { mx },
                        None => idx as int,
                    };
                    assert(max_label_index(post) == Some(mx2));
                    assert(r@.len() == mx2 + 1);
                    let lay = label_layout(post);
                    assert(lay.len() == r@.len());
                    assert forall|k: int| 0 <= k < r@.len() implies #[trigger] texts(r@)[k] == lay[k] by {
                        lemma_label_keys_bounded(pre, k);
                        if k != idx as int && k >= old_len {
                            assert(!m.contains_key(k));
                        }
                        if k != idx as int && k < old_len {
                            assert(old_texts[k] == label_layout(pre)[k]);
                        }
                    }
                    assert(texts(r@) =~= lay);
                }
            },
            _ => {
                proof {
                    assert(label_map(post) == label_map(pre));
                    assert(max_label_index(post) == max_label_index(pre));
                }
            },
        }
        n = n + 1;
    }
    proof {
        assert(v.take(entries@.len() as int) =~= v);
    }
    r
}

} // verus!

verus! {

/// The number of classes of a logits output: its last dimension read as
/// `usize` (0 when the shape has no dimension).
pub open spec fn class_count_spec(shape_last: Option<i64>) -> usize {
    match shape_last {
        Some(d) => d as usize,
        None => 0,
    }
}

/// The logits of one sequence from a model's output: the first
/// `class_count` values (all of them when there are fewer). There are none
/// (a shape mismatch) when the class count is zero or the output is empty.
pub fn logits_of<S: Copy>(data: &[S], shape_last: Option<i64>) -> (r: Option<Vec<S>>)
    ensures
        (class_count_spec(shape_last) == 0 || data@.len() == 0) ==> r is None,
        !(class_count_spec(shape_last) == 0 || data@.len() == 0) ==> (r matches Some(v)
            && v@ == data@.take(if class_count_spec(shape_last) < data@.len() { class_count_spec(shape_last) as int } else { data@.len() as int })),
{
    let count: usize = match shape_last {
        Some(d) => d as usize,
        None => 0,
    };
    if count == 0 || data.len() == 0 {
        return None;
    }
    let n = if count < data.len() { count } else { data.len() };
    let mut v: Vec<S> = Vec::new();
    let mut i: usize = 0;
    while i < n
        invariant
            i <= n <= data@.len(),
            v@ == data@.take(i as int),
        decreases n - i,
    {
        v.push(data[i]);
        proof {
            assert(data@.take(i as int + 1) =~= data@.take(i as int).push(data@[i as int]));
        }
        i = i + 1;
    }
    Some(v)
}

/// The error of a logits output with an unexpected shape, `actual` being its
/// rendered shape.
pub fn logits_shape_error(model_id: &str, actual: String) -> (e: InferenceError)
    ensures
        (e matches InferenceError::ShapeMismatch { model, expected, actual: a }
            && model@ == model_id@ && expected@ == "[1, num_classes]"@ && a@ == actual@),
{
    InferenceError::ShapeMismatch {
        model: String::from_str(model_id),
        expected: String::from_str("[1, num_classes]"),
        actual,
    }
}

} // verus!
