//! A verified boundary for a symbol-normalization service.
//!
//! The library is the decision core of a flat, C-compatible boundary around
//! two collaborator operations: normalizing a trading symbol to a canonical
//! pair, and classifying a symbol's market. The collaborator is untrusted
//! here — it may decline, and it may terminate abnormally — and the raw
//! machinery at the very edge (pointer handling, unwind containment) cannot
//! stand under the verifier. Everything that edge must decide is therefore
//! proved here instead:
//!
//! - [`guard`] turns the outcome of a guarded collaborator call into the
//!   value or sentinel the boundary returns, totally and exactly;
//! - [`marshal`] builds the null-terminated result allocation and proves
//!   that it represents its string faithfully;
//! - [`market`] models the classification tag, with `Unknown` as the
//!   failure sentinel.

mod guard;
mod market;
mod marshal;

pub use guard::{
    guard_market_type, guard_normalize, lemma_guard_sentinel_totality, market_verdict,
    normalize_verdict, CallOutcome,
};
pub use market::MarketType;
pub use marshal::{
    allocation_repr, encodable, encode_allocation, is_encodable, lemma_allocation_framing,
    lemma_allocation_roundtrip, lemma_encodable_text, marshal_normalize_outcome, nul_free,
    nul_free_text,
};
