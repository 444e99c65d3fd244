//! Tokenization for transformer models: encoding a text or a text pair into
//! model input arrays, and keeping the most recent tokens of a long premise.

use vstd::prelude::*;
use vstd::string::StringExecFns;
use std::sync::Arc;
use tokenizers::Tokenizer;
use crate::error::InferenceError;

verus! {

#[verifier::external_type_specification]
#[verifier::external_body]
pub struct ExTokenizer(Tokenizer);

/// Container for transformer model input tensors.
#[derive(Debug, Clone)]
pub struct EncodedInput {
    /// Token IDs.
    pub input_ids: Vec<i64>,
    /// Attention mask (1 for real tokens, 0 for padding).
    pub attention_mask: Vec<i64>,
    /// Token type IDs (segment IDs for pairs, 0 for single sequences).
    pub token_type_ids: Vec<i64>,
    /// Sequence length.
    pub length: usize,
}

/// A sequence of `u32` values widened to `i64`.
pub open spec fn widen(v: Seq<u32>) -> Seq<i64> {
    v.map_values(|x: u32| x as i64)
}

fn widen_all(v: &[u32]) -> (r: Vec<i64>)
    ensures
        r@ == widen(v@),
{
    let mut r: Vec<i64> = Vec::new();
    let mut i: usize = 0;
    while i < v.len()
        invariant
            i <= v@.len(),
            r@ == widen(v@.take(i as int)),
        decreases v@.len() - i,
    {
        r.push(v[i] as i64);
        proof {
            assert(widen(v@.take(i as int + 1)) =~= widen(v@.take(i as int)).push(v@[i as int] as i64));
        }
        i = i + 1;
    }
    proof {
        assert(v@.take(v@.len() as int) =~= v@);
    }
    r
}

impl EncodedInput {
    /// Builds model inputs from an encoding: ids, mask and type ids are
    /// widened to `i64`, and the length is the number of token ids.
    pub fn from_encoding(ids: &[u32], mask: &[u32], type_ids: &[u32]) -> (r: Self)
        ensures
            r.input_ids@ == widen(ids@),
            r.attention_mask@ == widen(mask@),
            r.token_type_ids@ == widen(type_ids@),
            r.length == ids@.len(),
    {
        let input_ids = widen_all(ids);
        let attention_mask = widen_all(mask);
        let token_type_ids = widen_all(type_ids);
        let length = input_ids.len();
        EncodedInput { input_ids, attention_mask, token_type_ids, length }
    }
}

/// The parts of an encoding that model inputs are built from: token ids,
/// attention mask and type ids.
pub type EncodingParts = (Vec<u32>, Vec<u32>, Vec<u32>);

/// The token ids, attention mask and type ids of the encoding that
/// `Tokenizer::encode` gives for the sequence `first` (and the pair sequence
/// `second`, when there is one), with special tokens when
/// `add_special_tokens`; `None` when it fails.
pub uninterp spec fn tokenizer_encoding(
    tokenizer: Tokenizer,
    first: Seq<char>,
    second: Option<Seq<char>>,
    add_special_tokens: bool,
) -> Option<(Seq<u32>, Seq<u32>, Seq<u32>)>;

/// Whether a tokenizer samples while encoding: a BPE model configured with
/// merge dropout draws random numbers on every call, so its encodings are
/// not a function of the text.
pub uninterp spec fn samples_tokens(tokenizer: Tokenizer) -> bool;

/// The text that `Tokenizer::decode` gives for token ids, special tokens
/// skipped; `None` when it fails.
pub uninterp spec fn tokenizer_decoding(tokenizer: Tokenizer, ids: Seq<u32>) -> Option<Seq<char>>;

/// The wrapper's result agrees with an encoding: the three sequences when
/// there is one, an error otherwise.
pub open spec fn parts_agree(r: Result<EncodingParts, String>, enc: Option<(Seq<u32>, Seq<u32>, Seq<u32>)>) -> bool {
    match enc {
        Some(p) => r matches Ok(q) && q.0@ == p.0 && q.1@ == p.1 && q.2@ == p.2,
        None => r is Err,
    }
}

/// Tells whether a tokenizer's model is BPE with merge dropout configured
/// (`BPE::dropout`), the one model whose `encode` samples. The contract
/// names that property.
#[verifier::external_body]
fn model_samples(tokenizer: &Tokenizer) -> (b: bool)
    ensures
        b == samples_tokens(*tokenizer),
{
    match tokenizer.get_model() {
        tokenizers::models::ModelWrapper::BPE(bpe) => bpe.dropout.is_some(),
        _ => false,
    }
}

/// Calls `Tokenizer::encode` on one text and hands out the encoding's token
/// ids, attention mask and type ids, or the error's message. For a tokenizer
/// that does not sample, the contract names the result; for one that does,
/// nothing is stated of it.
#[verifier::external_body]
fn encode_text(tokenizer: &Tokenizer, text: &str, add_special_tokens: bool) -> (r: Result<EncodingParts, String>)
    ensures
        !samples_tokens(*tokenizer) ==> parts_agree(r, tokenizer_encoding(*tokenizer, text@, None, add_special_tokens)),
{
    match tokenizer.encode(text, add_special_tokens) {
        Ok(enc) => Ok((enc.get_ids().to_vec(), enc.get_attention_mask().to_vec(), enc.get_type_ids().to_vec())),
        Err(err) => Err(err.to_string()),
    }
}

/// Calls `Tokenizer::encode` on a (first, second) sequence pair, with special
/// tokens, and hands out the encoding's token ids, attention mask and type
/// ids, or the error's message. For a tokenizer that does not sample, the
/// contract names the result; for one that does, nothing is stated of it.
#[verifier::external_body]
fn encode_text_pair(tokenizer: &Tokenizer, first: &str, second: &str) -> (r: Result<EncodingParts, String>)
    ensures
        !samples_tokens(*tokenizer) ==> parts_agree(r, tokenizer_encoding(*tokenizer, first@, Some(second@), true)),
{
    match tokenizer.encode((first, second), true) {
        Ok(enc) => Ok((enc.get_ids().to_vec(), enc.get_attention_mask().to_vec(), enc.get_type_ids().to_vec())),
        Err(err) => Err(err.to_string()),
    }
}

/// Calls `Tokenizer::decode`, skipping special tokens, and hands out the text
/// or the error's message; the contract names the result.
#[verifier::external_body]
fn decode_ids(tokenizer: &Tokenizer, ids: &[u32]) -> (r: Result<String, String>)
    ensures
        match tokenizer_decoding(*tokenizer, ids@) {
            Some(t) => r matches Ok(s) && s@ == t,
            None => r is Err,
        },
{
    tokenizer.decode(ids, true).map_err(|err| err.to_string())
}

/// A tokenizer error of the given model whose message is `prefix` followed by
/// the tokenizer's own message.
pub open spec fn tokenizer_error_with(e: InferenceError, model: Seq<char>, prefix: Seq<char>) -> bool {
    &&& e matches InferenceError::TokenizerError { model: m, message }
    &&& m@ == model
    &&& message@.len() >= prefix.len()
    &&& message@.subrange(0, prefix.len() as int) == prefix
}

/// Thread-safe shared tokenizer instance.
#[derive(Clone)]
pub struct SharedTokenizer {
    model_id: String,
    tokenizer: Arc<Tokenizer>,
}

fn prefixed(prefix: &str, message: String) -> (r: String)
    ensures
        r@ == prefix@ + message@,
{
    let mut s = String::from_str(prefix);
    s.append(message.as_str());
    s
}

impl SharedTokenizer {
    /// The model this tokenizer belongs to.
    pub closed spec fn spec_model_id(&self) -> Seq<char> {
        self.model_id@
    }

    /// Wraps a loaded tokenizer for the given model.
    pub fn new(model_id: &str, tokenizer: Tokenizer) -> (r: Self)
        ensures
            r.spec_model_id() == model_id@,
    {
        SharedTokenizer { model_id: String::from_str(model_id), tokenizer: Arc::new(tokenizer) }
    }

    /// Returns the underlying tokenizer's model ID.
    pub fn model_id(&self) -> (r: &str)
        ensures
            r@ == self.spec_model_id(),
    {
        self.model_id.as_str()
    }

    fn error(&self, prefix: &str, message: String) -> (e: InferenceError)
        ensures
            tokenizer_error_with(e, self.spec_model_id(), prefix@),
    {
        let m = prefixed(prefix, message);
        proof {
            assert(m@.subrange(0, prefix@.len() as int) =~= prefix@);
        }
        InferenceError::TokenizerError { model: self.model_id.clone(), message: m }
    }

    /// The tokenizer this value shares.
    pub closed spec fn spec_tokenizer(&self) -> Tokenizer {
        *self.tokenizer
    }

    /// Whether encoding with this tokenizer is a function of the text alone:
    /// false when its model samples merges (BPE with dropout).
    pub fn encodes_deterministically(&self) -> (b: bool)
        ensures
            b == !samples_tokens(self.spec_tokenizer()),
    {
        !model_samples(&self.tokenizer)
    }

    /// Encodes a single text sequence (with special tokens) into model input
    /// arrays. A failure is a tokenizer error of this model whose message
    /// starts with "tokenization failed: ".
    pub fn encode(&self, text: &str) -> (r: Result<EncodedInput, InferenceError>)
        ensures
            !samples_tokens(self.spec_tokenizer()) ==> encoding_result(
                r,
                tokenizer_encoding(self.spec_tokenizer(), text@, None, true),
                self.spec_model_id(),
                "tokenization failed: "@,
            ),
            r matches Ok(e) ==> (e.length == e.input_ids@.len()),
            r matches Err(e) ==> tokenizer_error_with(e, self.spec_model_id(), "tokenization failed: "@),
    {
        match encode_text(&self.tokenizer, text, true) {
            Ok(parts) => Ok(EncodedInput::from_encoding(parts.0.as_slice(), parts.1.as_slice(), parts.2.as_slice())),
            Err(msg) => Err(self.error("tokenization failed: ", msg)),
        }
    }

    /// Encodes a (premise, hypothesis) text pair into model input arrays. A
    /// failure is a tokenizer error of this model whose message starts with
    /// "pair tokenization failed: ".
    pub fn encode_pair(&self, a: &str, b: &str) -> (r: Result<EncodedInput, InferenceError>)
        ensures
            !samples_tokens(self.spec_tokenizer()) ==> encoding_result(
                r,
                tokenizer_encoding(self.spec_tokenizer(), a@, Some(b@), true),
                self.spec_model_id(),
                "pair tokenization failed: "@,
            ),
            r matches Ok(e) ==> (e.length == e.input_ids@.len()),
            r matches Err(e) ==> tokenizer_error_with(e, self.spec_model_id(), "pair tokenization failed: "@),
    {
        match encode_text_pair(&self.tokenizer, a, b) {
            Ok(parts) => Ok(EncodedInput::from_encoding(parts.0.as_slice(), parts.1.as_slice(), parts.2.as_slice())),
            Err(msg) => Err(self.error("pair tokenization failed: ", msg)),
        }
    }

    /// Keeps the last `max_tokens` tokens of a text, given the text's token
    /// ids: the text itself when it has no more tokens than that, otherwise
    /// the decoding of its last `max_tokens` ids. A decoding failure is a
    /// tokenizer error of this model whose message starts with
    /// "truncation decoding failed: ".
    pub fn truncate_ids(&self, text: &str, ids: &[u32], max_tokens: usize) -> (r: Result<String, InferenceError>)
        ensures
            truncation_outcome(self.spec_tokenizer(), self.spec_model_id(), text@, ids@, max_tokens as int, r),
    {
        if ids.len() <= max_tokens {
            return Ok(String::from_str(text));
        }
        let start = ids.len() - max_tokens;
        let tail = slice_tail(ids, start);
        match decode_ids(&self.tokenizer, tail.as_slice()) {
            Ok(s) => Ok(s),
            Err(msg) => Err(self.error("truncation decoding failed: ", msg)),
        }
    }

    /// Truncates a text to its last `max_tokens` tokens (sliding window), so
    /// that a long premise keeps its most recent context. The text is
    /// tokenized without special tokens; a tokenization failure is a tokenizer
    /// error of this model whose message starts with
    /// "truncation tokenization failed: ", and the rest is `truncate_ids`.
    pub fn sliding_window_truncate(&self, text: &str, max_tokens: usize) -> (r: Result<String, InferenceError>)
        ensures
            !samples_tokens(self.spec_tokenizer()) ==> match tokenizer_encoding(self.spec_tokenizer(), text@, None, false) {
                Some(p) => truncation_outcome(self.spec_tokenizer(), self.spec_model_id(), text@, p.0, max_tokens as int, r),
                None => r matches Err(e)
                    && tokenizer_error_with(e, self.spec_model_id(), "truncation tokenization failed: "@),
            },
            r matches Err(e) ==> tokenizer_error_with(e, self.spec_model_id(), "truncation tokenization failed: "@)
                || tokenizer_error_with(e, self.spec_model_id(), "truncation decoding failed: "@),
    {
        match encode_text(&self.tokenizer, text, false) {
            Ok(parts) => self.truncate_ids(text, parts.0.as_slice(), max_tokens),
            Err(msg) => Err(self.error("truncation tokenization failed: ", msg)),
        }
    }
}

/// An encoding result agrees with what the tokenizer gives: model inputs
/// built from the encoding when there is one, otherwise a tokenizer error of
/// the model whose message starts with `prefix`.
pub open spec fn encoding_result(
    r: Result<EncodedInput, InferenceError>,
    enc: Option<(Seq<u32>, Seq<u32>, Seq<u32>)>,
    model: Seq<char>,
    prefix: Seq<char>,
) -> bool {
    match enc {
        Some(p) => r matches Ok(e) && e.input_ids@ == widen(p.0) && e.attention_mask@ == widen(p.1)
            && e.token_type_ids@ == widen(p.2) && e.length == p.0.len(),
        None => r matches Err(e) && tokenizer_error_with(e, model, prefix),
    }
}

/// What keeping the last `max_tokens` of a text's token ids `ids` gives: the
/// text when there are no more ids than that, otherwise the decoding of the
/// last `max_tokens` ids, or a tokenizer error of the model whose message
/// starts with "truncation decoding failed: " when decoding fails.
pub open spec fn truncation_outcome(
    tokenizer: Tokenizer,
    model: Seq<char>,
    text: Seq<char>,
    ids: Seq<u32>,
    max_tokens: int,
    r: Result<String, InferenceError>,
) -> bool {
    if ids.len() <= max_tokens {
        r matches Ok(s) && s@ == text
    } else {
        match tokenizer_decoding(tokenizer, ids.subrange(ids.len() - max_tokens, ids.len() as int)) {
            Some(t) => r matches Ok(s) && s@ == t,
            None => r matches Err(e) && tokenizer_error_with(e, model, "truncation decoding failed: "@),
        }
    }
}

fn slice_tail(ids: &[u32], start: usize) -> (r: Vec<u32>)
    requires
        start <= ids@.len(),
    ensures
        r@ == ids@.subrange(start as int, ids@.len() as int),
{
    let mut r: Vec<u32> = Vec::new();
    let mut i: usize = start;
    while i < ids.len()
        invariant
            start <= i <= ids@.len(),
            r@ == ids@.subrange(start as int, i as int),
        decreases ids@.len() - i,
    {
        r.push(ids[i]);
        proof {
            assert(ids@.subrange(start as int, i as int + 1) =~= ids@.subrange(start as int, i as int).push(ids@[i as int]));
        }
        i = i + 1;
    }
    r
}

} // verus!
