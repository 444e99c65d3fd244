//! The token-count screen of the coherence gate: queries outside the length
//! range the coherence model was trained for bypass the model and pass.

use vstd::prelude::*;
use crate::text::{words, word_count};

verus! {

/// Where a query stands against the coherence model's length range.
#[derive(Debug, Clone, Copy, PartialEq, Eq, Structural)]
pub enum CoherenceScreen {
    /// More estimated tokens than the model handles: bypassed (Pass).
    AboveMax { tokens: usize },
    /// Fewer estimated tokens than the model handles: bypassed (Pass).
    BelowMin { tokens: usize },
    /// Within range: the model classifies the query.
    Classify { tokens: usize },
}

/// The screen of a query with `tokens` estimated tokens; the upper bound is
/// tested first.
pub open spec fn screen_spec(tokens: nat, min_tokens: usize, max_tokens: usize) -> CoherenceScreen {
    if tokens > max_tokens {
        CoherenceScreen::AboveMax { tokens: tokens as usize }
    } else if tokens < min_tokens {
        CoherenceScreen::BelowMin { tokens: tokens as usize }
    } else {
        CoherenceScreen::Classify { tokens: tokens as usize }
    }
}

/// Estimates the number of tokens of a text as its number of words.
pub fn estimate_token_count(text: &str) -> (n: usize)
    ensures
        n == words(text@).len(),
{
    word_count(text)
}

/// Screens a query against the coherence model's token range.
pub fn screen_query(query: &str, min_tokens: usize, max_tokens: usize) -> (r: CoherenceScreen)
    ensures
        r == screen_spec(words(query@).len(), min_tokens, max_tokens),
{
    let tokens = estimate_token_count(query);
    if tokens > max_tokens {
        CoherenceScreen::AboveMax { tokens }
    } else if tokens < min_tokens {
        CoherenceScreen::BelowMin { tokens }
    } else {
        CoherenceScreen::Classify { tokens }
    }
}

impl CoherenceScreen {
    /// The reason reported for a bypass; `None` when the model classifies.
    pub fn bypass_reason(&self) -> (r: Option<&'static str>)
        ensures
            match *self {
                CoherenceScreen::AboveMax { .. } => r matches Some(s) && s@ == "query_exceeds_max_tokens_for_model"@,
                CoherenceScreen::BelowMin { .. } => r matches Some(s) && s@ == "query_below_min_tokens_for_model"@,
                CoherenceScreen::Classify { .. } => r is None,
            },
    {
        match self {
            CoherenceScreen::AboveMax { .. } => Some("query_exceeds_max_tokens_for_model"),
            CoherenceScreen::BelowMin { .. } => Some("query_below_min_tokens_for_model"),
            CoherenceScreen::Classify { .. } => None,
        }
    }

    /// The estimated token count of the screened query.
    pub fn estimated_tokens(&self) -> (n: usize)
        ensures
            n == (match *self {
                CoherenceScreen::AboveMax { tokens } => tokens,
                CoherenceScreen::BelowMin { tokens } => tokens,
                CoherenceScreen::Classify { tokens } => tokens,
            }),
    {
        match self {
            CoherenceScreen::AboveMax { tokens } => *tokens,
            CoherenceScreen::BelowMin { tokens } => *tokens,
            CoherenceScreen::Classify { tokens } => *tokens,
        }
    }
}

/// A query is sent to the coherence model only when its estimated token
/// count lies within [min, max]; outside it, the model is bypassed.
pub proof fn law_model_sees_only_in_range(tokens: nat, min_tokens: usize, max_tokens: usize)
    ensures
        (screen_spec(tokens, min_tokens, max_tokens) is Classify) <==> (min_tokens <= tokens <= max_tokens),
{
}

} // verus!
