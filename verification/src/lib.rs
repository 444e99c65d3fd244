//! Verified core of the ControlPlane guardrail service.
//!
//! - `verdict`, `error`, `config`, `context`: gate identities, verdicts and
//!   block reasons, the error taxonomy with its messages, configuration
//!   defaults, and request contexts.
//! - `executor`, `pipeline`: the decisions of a stage's concurrent fan-out
//!   (failure policies, early stop, dry run, degraded mode) and of a request's
//!   path through prefilter, input gates, LLM and output gates.
//! - `prefilter`, `coherence`, `checksum`, `patterns`, `pii`, `labels`: the
//!   gates' own rules: length screen and query measures, token-range screen,
//!   Luhn and Verhoeff checks, PII scanning and masking, label layouts.
//! - `registry`, `pool`, `model_config`, `tokenizer`, `stub`: models and
//!   their backends: discovery decisions, session pools, exported
//!   configuration, tokenization, and the deterministic stub.
//! - `llm`, `history`: LLM generation requests and replies, the mock's
//!   responses, and conversation summaries.
//! - `text`: character-level helpers shared by the rest.

pub mod verdict;
pub mod text;
pub mod checksum;
pub mod context;
pub mod executor;
pub mod pipeline;
pub mod patterns;
pub mod config;
pub mod pii;
pub mod error;
pub mod history;
pub mod registry;
pub mod stub;
pub mod labels;
pub mod tokenizer;
pub mod prefilter;
pub mod coherence;
pub mod llm;
pub mod model_config;
pub mod pool;
