use vstd::prelude::*;

verus! {

/// The named outcome of a rejected operation.
///
/// Every failure is surfaced as one of these distinct codes, so an outer
/// layer can decide whether to retry (say, resubmit a reading once the
/// source is verified) or report a final error. Each is scoped to the one
/// rejected operation; no state change accompanies any of them.
#[derive(Clone, Copy, Debug, PartialEq, Eq, Structural)]
pub enum ErrorCode {
    /// A checked numeric update would leave the representable range.
    ArithmeticOverflow,
    /// A reading was submitted for a source whose `verified` flag is unset.
    EnergySourceNotVerified,
    /// A repayment was attempted on a loan that is no longer `Active`.
    LoanNotActive,
    /// A purchase was attempted on a listing whose `active` flag is unset.
    ListingNotActive,
    /// A purchase asked for more credit than the listing still holds.
    InsufficientListingAmount,
    /// The caller lacks the identity or capability the operation demands.
    Unauthorized,
    /// A zero quantity was given where a positive one is required.
    InvalidAmount,
}

} // verus!
