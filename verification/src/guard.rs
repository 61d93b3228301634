//! The call guard: the decision half of the failure-isolating region that
//! wraps every boundary entry point.
//!
//! A boundary call runs the collaborator inside a region that contains any
//! abnormal termination. Containing the unwind itself takes machinery the
//! verifier cannot hold, so it lives outside the library; what it hands back
//! is a [`CallOutcome`]: either the value the region produced, or the fact
//! that it terminated abnormally. The functions here take that outcome and
//! decide, exactly and totally, what the boundary returns — the produced
//! value on normal completion, the operation's sentinel otherwise.

use vstd::prelude::*;

use crate::market::MarketType;

verus! {

/// What became of one guarded collaborator call: the value it completed
/// with, or the fact that it terminated abnormally before producing one.
pub enum CallOutcome<T> {
    /// The guarded region ran to completion and produced this value.
    Completed(T),
    /// The guarded region terminated abnormally; no value was produced.
    Panicked,
}

/// What the string-returning entry point hands to the marshaller for a given
/// outcome: the produced string on normal completion, absence otherwise.
pub open spec fn normalize_verdict(outcome: CallOutcome<Option<String>>) -> Option<Seq<char>> {
    match outcome {
        CallOutcome::Completed(Some(s)) => Some(s@),
        CallOutcome::Completed(None) => None,
        CallOutcome::Panicked => None,
    }
}

/// What the classifying entry point returns for a given outcome: the
/// produced tag on normal completion, the `Unknown` sentinel otherwise.
pub open spec fn market_verdict(outcome: CallOutcome<MarketType>) -> MarketType {
    match outcome {
        CallOutcome::Completed(m) => m,
        CallOutcome::Panicked => MarketType::Unknown,
    }
}

/// Decide the result of the string-returning operation from the outcome of
/// its guarded region: the collaborator's string unchanged on completion,
/// the absent-string sentinel if the region terminated abnormally.
pub fn guard_normalize(outcome: CallOutcome<Option<String>>) -> (r: Option<String>)
    ensures
        (match r {
            Some(s) => normalize_verdict(outcome) == Some(s@),
            None => normalize_verdict(outcome) is None,
        }),
{
    match outcome {
        CallOutcome::Completed(produced) => produced,
        CallOutcome::Panicked => None,
    }
}

/// Decide the result of the classifying operation from the outcome of its
/// guarded region: the collaborator's tag unchanged on completion, the
/// `Unknown` sentinel if the region terminated abnormally.
pub fn guard_market_type(outcome: CallOutcome<MarketType>) -> (r: MarketType)
    ensures
        r == market_verdict(outcome),
{
    match outcome {
        CallOutcome::Completed(m) => m,
        CallOutcome::Panicked => MarketType::Unknown,
    }
}

/// Sentinel totality of the call guard: whatever the guarded region did, the
/// boundary observes either the value it completed with or the operation's
/// documented sentinel — an abnormal termination is never passed on, and a
/// successful result is never invented.
pub proof fn lemma_guard_sentinel_totality(
    string_outcome: CallOutcome<Option<String>>,
    market_outcome: CallOutcome<MarketType>,
)
    ensures
        string_outcome is Panicked ==> normalize_verdict(string_outcome) is None,
        market_outcome is Panicked ==> market_verdict(market_outcome).is_sentinel(),
        normalize_verdict(string_outcome) matches Some(s) ==> (string_outcome matches
            CallOutcome::Completed(p) && p matches Some(t) && t@ == s),
        !market_verdict(market_outcome).is_sentinel() ==> market_outcome
            == CallOutcome::Completed(market_verdict(market_outcome)),
{
}

} // verus!
