//! The market classification tag that crosses the boundary by value.
//!
//! The tag set mirrors the classifier's own, member for member, so that a
//! value can be handed across the boundary bit-for-bit. `Unknown` doubles as
//! the universal failure sentinel: it stands both for a legitimate negative
//! classification and for a suppressed internal failure.

use vstd::prelude::*;

verus! {

/// Classification of a trading symbol.
#[derive(Clone, Copy, PartialEq, Eq, Structural, Debug)]
pub enum MarketType {
    Unknown,
    Spot,
    LinearFuture,
    InverseFuture,
    LinearSwap,
    InverseSwap,
    AmericanOption,
    EuropeanOption,
    QuantoFuture,
    QuantoSwap,
    Move,
    #[allow(clippy::upper_case_acronyms)]
    BVOL,
}

impl MarketType {
    /// Whether this tag is the failure sentinel of the classification
    /// operation.
    pub open spec fn is_sentinel(self) -> bool {
        self == MarketType::Unknown
    }
}

} // verus!
