//! Resolution of classifier label layouts: which logits of a toxicity head
//! count as toxic, and where an NLI cross-encoder puts its three classes.

use vstd::prelude::*;
use vstd::string::StringExecFns;
use crate::text::{chars_of, string_of_chars};

verus! {

/// ASCII lowercase of one character; other characters are unchanged.
pub open spec fn ascii_lower_char(c: char) -> char {
    if 'A' <= c && c <= 'Z' {
        ((c as u32) + 32) as char
    } else {
        c
    }
}

/// ASCII lowercase of a text (what `str::to_ascii_lowercase` gives).
pub open spec fn ascii_lower(s: Seq<char>) -> Seq<char> {
    s.map_values(|c: char| ascii_lower_char(c))
}

/// Lowercases the ASCII letters of a text.
pub fn to_ascii_lowercase(s: &str) -> (r: String)
    ensures
        r@ == ascii_lower(s@),
{
    let cs = chars_of(s);
    let mut out: Vec<char> = Vec::new();
    let mut i: usize = 0;
    while i < cs.len()
        invariant
            i <= cs@.len(),
            cs@ == s@,
            out@ == ascii_lower(cs@.take(i as int)),
        decreases cs@.len() - i,
    {
        let c = cs[i];
        let l = if 'A' <= c && c <= 'Z' { ((c as u8) + 32) as char } else { c };
        out.push(l);
        proof {
            assert(ascii_lower(cs@.take(i as int + 1)) =~= ascii_lower(cs@.take(i as int)).push(ascii_lower_char(c)));
        }
        i = i + 1;
    }
    proof {
        assert(cs@.take(cs@.len() as int) =~= cs@);
    }
    string_of_chars(&out)
}

/// Label names that denote the absence of toxicity.
pub open spec fn benign_labels() -> Seq<Seq<char>> {
    seq![
        "clean"@, "neutral"@, "safe"@, "benign"@, "non-toxic"@, "non_toxic"@, "nontoxic"@,
        "not_toxic"@, "no_toxic"@, "nothate"@,
    ]
}

/// Whether a label (lowercased) is a benign label.
pub open spec fn is_benign(label: Seq<char>) -> bool {
    benign_labels().contains(ascii_lower(label))
}

/// Whether a label (lowercased) is a positional placeholder such as `LABEL_0`.
pub open spec fn is_placeholder(label: Seq<char>) -> bool {
    ascii_lower(label).len() >= 6 && ascii_lower(label).subrange(0, 6) == "label_"@
}

/// Indices of the labels, among the first `n`, that are not benign.
pub open spec fn non_benign_indices(labels: Seq<Seq<char>>, n: int) -> Seq<usize>
    decreases n,
{
    if n <= 0 {
        Seq::empty()
    } else {
        let rest = non_benign_indices(labels, n - 1);
        if is_benign(labels[n - 1]) { rest } else { rest.push((n - 1) as usize) }
    }
}

/// The logit indices that count as toxic: index 1 when the labels are absent
/// or all placeholders (the binary [negative, positive] layout), otherwise the
/// non-benign labels, falling back to index 1 when every label is benign.
pub open spec fn toxic_indices_spec(labels: Seq<Seq<char>>) -> Seq<usize> {
    let uninformative = labels.len() == 0 || forall|i: int| 0 <= i < labels.len() ==> is_placeholder(#[trigger] labels[i]);
    if uninformative {
        seq![1usize]
    } else if non_benign_indices(labels, labels.len() as int).len() == 0 {
        seq![1usize]
    } else {
        non_benign_indices(labels, labels.len() as int)
    }
}

fn starts_with_label_prefix(s: &String) -> (b: bool)
    ensures
        b == (s@.len() >= 6 && s@.subrange(0, 6) == "label_"@),
{
    proof {
        reveal_strlit("label_");
    }
    let cs = chars_of(s.as_str());
    if cs.len() < 6 {
        return false;
    }
    let b = cs[0] == 'l' && cs[1] == 'a' && cs[2] == 'b' && cs[3] == 'e' && cs[4] == 'l' && cs[5] == '_';
    proof {
        if b {
            assert(s@.subrange(0, 6) =~= "label_"@);
        } else {
            assert(s@.subrange(0, 6)[0] != "label_"@[0] || s@.subrange(0, 6)[1] != "label_"@[1]
                || s@.subrange(0, 6)[2] != "label_"@[2] || s@.subrange(0, 6)[3] != "label_"@[3]
                || s@.subrange(0, 6)[4] != "label_"@[4] || s@.subrange(0, 6)[5] != "label_"@[5]);
        }
    }
    b
}

fn benign_label_list() -> (v: Vec<String>)
    ensures
        v@.map_values(|s: String| s@) == benign_labels(),
{
    let mut v: Vec<String> = Vec::new();
    v.push(String::from_str("clean"));
    v.push(String::from_str("neutral"));
    v.push(String::from_str("safe"));
    v.push(String::from_str("benign"));
    v.push(String::from_str("non-toxic"));
    v.push(String::from_str("non_toxic"));
    v.push(String::from_str("nontoxic"));
    v.push(String::from_str("not_toxic"));
    v.push(String::from_str("no_toxic"));
    v.push(String::from_str("nothate"));
    proof {
        assert(v@.map_values(|s: String| s@) =~= benign_labels());
    }
    v
}

fn contains_str(v: &Vec<String>, s: &String) -> (b: bool)
    ensures
        b == v@.map_values(|x: String| x@).contains(s@),
{
    let mut i: usize = 0;
    while i < v.len()
        invariant
            i <= v@.len(),
            forall|k: int| 0 <= k < i ==> v@[k]@ != s@,
        decreases v@.len() - i,
    {
        if v[i] == *s {
            proof {
                assert(v@.map_values(|x: String| x@)[i as int] == s@);
            }
            return true;
        }
        i = i + 1;
    }
    proof {
        let m = v@.map_values(|x: String| x@);
        if m.contains(s@) {
            let k = choose|k: int| 0 <= k < m.len() && #[trigger] m[k] == s@;
            assert(v@[k]@ == s@);
        }
    }
    false
}

/// Picks the logit indices of a toxicity head that represent toxicity, from
/// its class names in logit order.
pub fn resolve_toxic_indices(class_names: &Vec<String>) -> (idx: Vec<usize>)
    ensures
        idx@ == toxic_indices_spec(class_names@.map_values(|s: String| s@)),
{
    let ghost labels = class_names@.map_values(|s: String| s@);
    let benign = benign_label_list();
    let mut all_placeholders = true;
    let mut indices: Vec<usize> = Vec::new();
    let mut i: usize = 0;
    while i < class_names.len()
        invariant
            i <= class_names@.len(),
            labels == class_names@.map_values(|s: String| s@),
            benign@.map_values(|s: String| s@) == benign_labels(),
            all_placeholders == forall|k: int| 0 <= k < i ==> is_placeholder(#[trigger] labels[k]),
            indices@ == non_benign_indices(labels, i as int),
        decreases class_names@.len() - i,
    {
        let lowered = to_ascii_lowercase(class_names[i].as_str());
        proof {
            assert(labels[i as int] == class_names@[i as int]@);
        }
        if !starts_with_label_prefix(&lowered) {
            all_placeholders = false;
        }
        if !contains_str(&benign, &lowered) {
            indices.push(i);
        }
        proof {
            if all_placeholders {
                assert forall|k: int| 0 <= k < i + 1 implies is_placeholder(#[trigger] labels[k]) by {}
            } else if forall|k: int| 0 <= k < i ==> is_placeholder(#[trigger] labels[k]) {
                assert(!is_placeholder(labels[i as int]));
            }
        }
        i = i + 1;
    }
    if class_names.len() == 0 || all_placeholders || indices.len() == 0 {
        let mut one: Vec<usize> = Vec::new();
        one.push(1);
        proof {
            assert(one@ =~= seq![1usize]);
        }
        one
    } else {
        indices
    }
}

proof fn lemma_non_benign_indices(labels: Seq<Seq<char>>, n: int)
    requires
        n <= labels.len(),
        labels.len() <= usize::MAX,
    ensures
        forall|i: int| 0 <= i < non_benign_indices(labels, n).len()
            ==> 0 <= #[trigger] non_benign_indices(labels, n)[i] < n
                && !is_benign(labels[non_benign_indices(labels, n)[i] as int]),
        forall|i: int, j: int| 0 <= i < j < non_benign_indices(labels, n).len()
            ==> non_benign_indices(labels, n)[i] < non_benign_indices(labels, n)[j],
    decreases n,
{
    if n > 0 {
        lemma_non_benign_indices(labels, n - 1);
        let rest = non_benign_indices(labels, n - 1);
        let cur = non_benign_indices(labels, n);
        if !is_benign(labels[n - 1]) {
            assert(cur == rest.push((n - 1) as usize));
            assert forall|i: int| 0 <= i < cur.len()
                implies 0 <= #[trigger] cur[i] < n && !is_benign(labels[cur[i] as int]) by {
                if i < rest.len() {
                    assert(cur[i] == rest[i]);
                }
            }
            assert forall|i: int, j: int| 0 <= i < j < cur.len() implies cur[i] < cur[j] by {
                if j < rest.len() {
                    assert(cur[i] == rest[i] && cur[j] == rest[j]);
                } else {
                    assert(cur[i] == rest[i]);
                }
            }
        }
    }
}

/// A toxicity head always has at least one toxic logit; when its labels are
/// informative and some label is not benign, the toxic logits are the
/// positions of the non-benign labels, in increasing order.
pub proof fn law_toxic_indices_nonempty_and_in_range(labels: Seq<Seq<char>>)
    requires
        labels.len() <= usize::MAX,
    ensures
        toxic_indices_spec(labels).len() > 0,
        toxic_indices_spec(labels) != seq![1usize] ==> forall|i: int| 0 <= i < toxic_indices_spec(labels).len()
            ==> #[trigger] toxic_indices_spec(labels)[i] < labels.len()
                && !is_benign(labels[toxic_indices_spec(labels)[i] as int]),
        forall|i: int, j: int| 0 <= i < j < toxic_indices_spec(labels).len()
            ==> toxic_indices_spec(labels)[i] < toxic_indices_spec(labels)[j],
{
    lemma_non_benign_indices(labels, labels.len() as int);
}

/// Where an NLI cross-encoder puts its classes: (contradiction, entailment, neutral).
#[derive(Debug, Clone, Copy, PartialEq, Eq, Structural)]
pub struct NliIndices {
    pub contradiction: usize,
    pub entailment: usize,
    pub neutral: usize,
}

/// The first position of `name` in `labels`, if any.
pub open spec fn first_position(labels: Seq<Seq<char>>, name: Seq<char>) -> Option<usize> {
    if exists|i: int| 0 <= i < labels.len() && labels[i] == name {
        let i = choose|i: int| 0 <= i < labels.len() && labels[i] == name
            && forall|j: int| 0 <= j < i ==> labels[j] != name;
        Some(i as usize)
    } else {
        None
    }
}

/// The message for a model lacking a required class.
pub open spec fn missing_class_message(model_id: Seq<char>, name: Seq<char>) -> Seq<char> {
    "Model "@ + model_id + " missing required class '"@ + name + "'"@
}

/// The NLI layout of a model: (0, 1, 2) when it publishes no labels; otherwise
/// the first positions of contradiction, entailment and neutral, failing on the
/// first one (in that order) that is missing.
pub open spec fn nli_indices_spec(labels: Seq<Seq<char>>, model_id: Seq<char>) -> Result<NliIndices, Seq<char>> {
    if labels.len() == 0 {
        Ok(NliIndices { contradiction: 0, entailment: 1, neutral: 2 })
    } else {
        match first_position(labels, "contradiction"@) {
            None => Err(missing_class_message(model_id, "contradiction"@)),
            Some(c) => match first_position(labels, "entailment"@) {
                None => Err(missing_class_message(model_id, "entailment"@)),
                Some(e) => match first_position(labels, "neutral"@) {
                    None => Err(missing_class_message(model_id, "neutral"@)),
                    Some(n) => Ok(NliIndices { contradiction: c, entailment: e, neutral: n }),
                },
            },
        }
    }
}

fn position_of(labels: &Vec<String>, name: &str) -> (r: Option<usize>)
    ensures
        r == first_position(labels@.map_values(|s: String| s@), name@),
{
    let ghost v = labels@.map_values(|s: String| s@);
    let target = String::from_str(name);
    let mut i: usize = 0;
    while i < labels.len()
        invariant
            i <= labels@.len(),
            v == labels@.map_values(|s: String| s@),
            target@ == name@,
            forall|j: int| 0 <= j < i ==> v[j] != name@,
        decreases labels@.len() - i,
    {
        if labels[i] == target {
            proof {
                assert(v[i as int] == name@);
                let k = choose|k: int| 0 <= k < v.len() && v[k] == name@
                    && forall|j: int| 0 <= j < k ==> v[j] != name@;
                if k < i {
                    assert(v[k] != name@);
                } else if k > i {
                    assert(v[i as int] != name@);
                }
            }
            return Some(i);
        }
        i = i + 1;
    }
    None
}

fn missing_class(model_id: &str, name: &str) -> (s: String)
    ensures
        s@ == missing_class_message(model_id@, name@),
{
    let mut s = String::from_str("Model ");
    s.append(model_id);
    s.append(" missing required class '");
    s.append(name);
    s.append("'");
    s
}

/// Resolves where an NLI cross-encoder puts contradiction, entailment and
/// neutral, from its class names in logit order.
pub fn resolve_nli_indices(class_names: &Vec<String>, model_id: &str) -> (r: Result<NliIndices, String>)
    ensures
        match nli_indices_spec(class_names@.map_values(|s: String| s@), model_id@) {
            Ok(i) => r == Ok::<NliIndices, String>(i),
            Err(m) => r matches Err(s) && s@ == m,
        },
{
    if class_names.len() == 0 {
        return Ok(NliIndices { contradiction: 0, entailment: 1, neutral: 2 });
    }
    let contradiction = match position_of(class_names, "contradiction") {
        Some(i) => i,
        None => return Err(missing_class(model_id, "contradiction")),
    };
    let entailment = match position_of(class_names, "entailment") {
        Some(i) => i,
        None => return Err(missing_class(model_id, "entailment")),
    };
    let neutral = match position_of(class_names, "neutral") {
        Some(i) => i,
        None => return Err(missing_class(model_id, "neutral")),
    };
    Ok(NliIndices { contradiction, entailment, neutral })
}

} // verus!
