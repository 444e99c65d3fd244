//! Deterministic weightless stub backend: lets the pipeline run end to end
//! without model weights. Trigger words force blocking scores; other inputs
//! get scores derived from a stable hash of the model id and the text.

use vstd::prelude::*;
use vstd::string::StringExecFns;
use crate::error::InferenceError;
use std::hash::{Hash, Hasher};
use crate::text::{contains_seq, join_strings, join_with, split_words, str_contains, words};

verus! {

/// A stable 64-bit hash of a model id and a text, as computed by
/// `std::collections::hash_map::DefaultHasher` (fixed keys) fed first the id,
/// then the text.
pub uninterp spec fn stub_text_hash(id: Seq<char>, text: Seq<char>) -> u64;

/// Hashes the model id and then the text with a freshly created
/// `DefaultHasher` (`DefaultHasher::new`, `Hash::hash` twice, `Hasher::finish`).
#[verifier::external_body]
fn stable_hash(id: &str, text: &str) -> (h: u64)
    ensures
        h == stub_text_hash(id@, text@),
{
    let mut hasher = std::collections::hash_map::DefaultHasher::new();
    id.hash(&mut hasher);
    text.hash(&mut hasher);
    hasher.finish()
}

/// The scores the stub produces, before conversion to probabilities.
#[derive(Debug, Clone)]
pub enum StubScores {
    /// Coherence block: [clean 0.02, mild 0.05, noise 0.03, word salad 0.90].
    CoherenceBlock,
    /// Toxicity block: [clean 0.05, toxic 0.95].
    ToxicityBlock,
    /// Intent block: [benign 0.02, attack 0.98].
    IntentBlock,
    /// Generic block over `classes` classes: 0.05 everywhere but 0.95 on the last class.
    GenericBlock { classes: usize },
    /// Hash-derived raw logits, in hundredths (0 to 99), one per class; class 0
    /// is then raised by 5 and the logits go through a softmax.
    Hashed { hundredths: Vec<u64> },
    /// Cross-encoder block: [contradiction 0.92, entailment 0.03, neutral 0.05].
    CrossEncoderBlock,
    /// Pair block for other models: [0.90, 0.10].
    PairBlock,
    /// Cross-encoder default, grounded: [contradiction 0.05, entailment 0.90, neutral 0.05].
    CrossEncoderGrounded,
    /// Pair default for other models: 0.1 everywhere but 0.85 + `bonus`/100 on class 1.
    PairHashed { classes: usize, bonus: u64 },
}

/// Deterministic mock inference backend.
#[derive(Debug)]
pub struct StubBackend {
    id: String,
    num_classes: usize,
}

impl Clone for StubBackend {
    fn clone(&self) -> (r: Self)
        ensures
            r.spec_id() == self.spec_id(),
            r.spec_num_classes() == self.spec_num_classes(),
    {
        StubBackend { id: self.id.clone(), num_classes: self.num_classes }
    }
}

/// Whether a single-text input triggers a block for the model `id`.
pub open spec fn classify_block_trigger(id: Seq<char>, text: Seq<char>) -> bool {
    ||| contains_seq(text, "__STUB_BLOCK__"@)
    ||| (id == "coherence"@ && contains_seq(text, "__STUB_BLOCK_COHERENCE__"@))
    ||| (id == "toxicity"@ && contains_seq(text, "__STUB_BLOCK_TOXICITY__"@))
    ||| (id == "intent"@ && contains_seq(text, "__STUB_BLOCK_INTENT__"@))
}

/// The class count the stub scores: at least two.
pub open spec fn scored_classes(n: usize) -> usize {
    if n < 2 { 2 } else { n }
}

/// The hash-derived raw logits, in hundredths: class i gets (hash + 31 i) mod 100,
/// the addition wrapping at 2^64.
pub open spec fn hashed_hundredths(hash: u64, n: usize) -> Seq<u64> {
    Seq::new(n as nat, |i: int| (((hash as int + i * 31) % 0x1_0000_0000_0000_0000) % 100) as u64)
}

/// The text a pair is scored on: `a`, then ` [SEP] `, then `b`.
pub open spec fn pair_text(a: Seq<char>, b: Seq<char>) -> Seq<char> {
    a + " [SEP] "@ + b
}

/// Computes the hash-derived raw logits for `n` classes.
pub fn hashed_logits(hash: u64, n: usize) -> (v: Vec<u64>)
    requires
        n as int * 31 <= u64::MAX,
    ensures
        v@ == hashed_hundredths(hash, n),
{
    let mut v: Vec<u64> = Vec::new();
    let mut i: usize = 0;
    while i < n
        invariant
            i <= n,
            n as int * 31 <= u64::MAX,
            v@ == hashed_hundredths(hash, n).take(i as int),
        decreases n - i,
    {
        let step: u64 = (i as u64) * 31;
        let val = hash.wrapping_add(step) % 100;
        proof {
            assert(hashed_hundredths(hash, n).take(i as int + 1) =~= hashed_hundredths(hash, n).take(i as int).push(val));
        }
        v.push(val);
        i = i + 1;
    }
    proof {
        assert(hashed_hundredths(hash, n).take(n as int) =~= hashed_hundredths(hash, n));
    }
    v
}

impl StubBackend {
    /// The model identifier.
    pub closed spec fn spec_id(&self) -> Seq<char> {
        self.id@
    }

    /// The expected class count.
    pub closed spec fn spec_num_classes(&self) -> usize {
        self.num_classes
    }

    /// Constructs a stub backend for a model identifier and expected class count.
    pub fn new(id: &str, num_classes: usize) -> (r: Self)
        ensures
            r.spec_id() == id@,
            r.spec_num_classes() == num_classes,
    {
        StubBackend { id: String::from_str(id), num_classes }
    }

    /// The model identifier.
    pub fn id(&self) -> (s: &str)
        ensures
            s@ == self.spec_id(),
    {
        self.id.as_str()
    }

    /// Whether the class offsets of the hash-derived logits (31 per class)
    /// fit in 64 bits, as `classify_scores` needs.
    pub fn class_offsets_fit(&self) -> (b: bool)
        ensures
            b == (scored_classes(self.spec_num_classes()) as int * 31 <= u64::MAX),
    {
        let n: usize = if self.num_classes < 2 { 2 } else { self.num_classes };
        n as u64 <= u64::MAX / 31
    }

    /// The stub never has live weights.
    pub fn is_live(&self) -> (b: bool)
        ensures
            !b,
    {
        false
    }

    /// The class names in logit order: contradiction, entailment, neutral for
    /// the cross-encoder, none for other models.
    pub fn class_names(&self) -> (names: Vec<String>)
        ensures
            names@.map_values(|s: String| s@) == (if self.spec_id() == "cross_encoder"@ {
                seq!["contradiction"@, "entailment"@, "neutral"@]
            } else {
                Seq::<Seq<char>>::empty()
            }),
    {
        let cross = String::from_str("cross_encoder");
        let mut names: Vec<String> = Vec::new();
        if self.id == cross {
            names.push(String::from_str("contradiction"));
            names.push(String::from_str("entailment"));
            names.push(String::from_str("neutral"));
        }
        proof {
            assert(names@.map_values(|s: String| s@) =~= (if self.spec_id() == "cross_encoder"@ {
                seq!["contradiction"@, "entailment"@, "neutral"@]
            } else {
                Seq::<Seq<char>>::empty()
            }));
        }
        names
    }

    /// Truncates a text to its last `max_tokens` words, joined by single
    /// spaces; a text with at most `max_tokens` words is returned unchanged.
    pub fn sliding_window_truncate(&self, text: &str, max_tokens: usize) -> (r: Result<String, InferenceError>)
        ensures
            r matches Ok(s) && s@ == (if words(text@).len() <= max_tokens {
                text@
            } else {
                join_with(words(text@).subrange(words(text@).len() - max_tokens, words(text@).len() as int), " "@)
            }),
    {
        let ws = split_words(text);
        if ws.len() <= max_tokens {
            return Ok(String::from_str(text));
        }
        let start = ws.len() - max_tokens;
        let tail = slice_from(&ws, start);
        let ghost v = ws@.map_values(|w: String| w@);
        proof {
            assert(tail@.map_values(|w: String| w@) =~= v.subrange(start as int, v.len() as int));
        }
        Ok(join_strings(tail, " "))
    }

    /// Whether an input asks the stub to stall (used to exercise timeouts).
    pub fn is_slow_trigger(&self, text: &str) -> (b: bool)
        ensures
            b == contains_seq(text@, "__STUB_SLOW__"@),
    {
        str_contains(text, "__STUB_SLOW__")
    }

    /// The scores for sequence classification of a text.
    pub fn classify_scores(&self, text: &str) -> (r: StubScores)
        requires
            scored_classes(self.spec_num_classes()) as int * 31 <= u64::MAX,
        ensures
            classify_block_trigger(self.spec_id(), text@) ==> r == (if self.spec_id() == "coherence"@ {
                StubScores::CoherenceBlock
            } else if self.spec_id() == "toxicity"@ {
                StubScores::ToxicityBlock
            } else if self.spec_id() == "intent"@ {
                StubScores::IntentBlock
            } else {
                StubScores::GenericBlock { classes: scored_classes(self.spec_num_classes()) }
            }),
            !classify_block_trigger(self.spec_id(), text@) ==> (r matches StubScores::Hashed { hundredths }
                && hundredths@ == hashed_hundredths(
                    stub_text_hash(self.spec_id(), text@), scored_classes(self.spec_num_classes()))),
    {
        let is_coherence = self.id == String::from_str("coherence");
        let is_toxicity = self.id == String::from_str("toxicity");
        let is_intent = self.id == String::from_str("intent");
        let is_block = str_contains(text, "__STUB_BLOCK__")
            || (is_coherence && str_contains(text, "__STUB_BLOCK_COHERENCE__"))
            || (is_toxicity && str_contains(text, "__STUB_BLOCK_TOXICITY__"))
            || (is_intent && str_contains(text, "__STUB_BLOCK_INTENT__"));
        let n = if self.num_classes < 2 { 2 } else { self.num_classes };
        if is_block {
            if is_coherence {
                StubScores::CoherenceBlock
            } else if is_toxicity {
                StubScores::ToxicityBlock
            } else if is_intent {
                StubScores::IntentBlock
            } else {
                StubScores::GenericBlock { classes: n }
            }
        } else {
            let hash = stable_hash(self.id.as_str(), text);
            StubScores::Hashed { hundredths: hashed_logits(hash, n) }
        }
    }

    /// The text a (premise, hypothesis) pair is scored on.
    pub fn pair_text(a: &str, b: &str) -> (s: String)
        ensures
            s@ == pair_text(a@, b@),
    {
        let mut s = String::from_str(a);
        s.append(" [SEP] ");
        s.append(b);
        s
    }

    /// The scores for a (premise, hypothesis) pair.
    pub fn classify_pair_scores(&self, a: &str, b: &str) -> (r: StubScores)
        ensures
            ({
                let combined = pair_text(a@, b@);
                let block = contains_seq(combined, "__STUB_BLOCK__"@) || contains_seq(combined, "__STUB_BLOCK_GROUNDING__"@);
                let cross = self.spec_id() == "cross_encoder"@;
                &&& block && cross ==> r == StubScores::CrossEncoderBlock
                &&& block && !cross ==> r == StubScores::PairBlock
                &&& !block && cross ==> r == StubScores::CrossEncoderGrounded
                &&& !block && !cross ==> r == (StubScores::PairHashed {
                    classes: scored_classes(self.spec_num_classes()),
                    bonus: stub_text_hash(self.spec_id(), combined) % 10,
                })
            }),
    {
        let combined = Self::pair_text(a, b);
        let block = str_contains(combined.as_str(), "__STUB_BLOCK__")
            || str_contains(combined.as_str(), "__STUB_BLOCK_GROUNDING__");
        let cross = self.id == String::from_str("cross_encoder");
        if block {
            if cross { StubScores::CrossEncoderBlock } else { StubScores::PairBlock }
        } else if cross {
            StubScores::CrossEncoderGrounded
        } else {
            let hash = stable_hash(self.id.as_str(), combined.as_str());
            let n = if self.num_classes < 2 { 2 } else { self.num_classes };
            StubScores::PairHashed { classes: n, bonus: hash % 10 }
        }
    }
}

/// The strings of `v` from index `start` on.
fn slice_from(v: &Vec<String>, start: usize) -> (r: &[String])
    requires
        start <= v@.len(),
    ensures
        r@ == v@.subrange(start as int, v@.len() as int),
{
    vstd::slice::slice_subrange(v.as_slice(), start, v.len())
}

/// Truncation never lengthens the word list: the truncated text has at most
/// `max_tokens` words whenever truncation happens.
pub proof fn law_truncation_keeps_last_words(ws: Seq<Seq<char>>, max_tokens: usize)
    requires
        ws.len() > max_tokens,
    ensures
        ws.subrange(ws.len() - max_tokens, ws.len() as int).len() == max_tokens,
        forall|i: int| 0 <= i < max_tokens
            ==> #[trigger] ws.subrange(ws.len() - max_tokens, ws.len() as int)[i] == ws[ws.len() - max_tokens + i],
{
}

} // verus!
