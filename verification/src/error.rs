//! The reasons for which a call is refused.

use vstd::prelude::*;

verus! {

/// Why a registration or a claim was refused. Every refusal ends the call
/// and leaves all records as they were.
#[derive(Clone, Copy, Debug, PartialEq, Eq, Structural)]
pub enum ErrorCode {
    /// A plan is already registered under this company name.
    DuplicatePlan,
    /// The beneficiary already has a schedule under this plan.
    DuplicateSchedule,
    /// The company name is longer than a plan can carry.
    NameTooLong,
    /// The requester is not the owner of the plan.
    NotPlanOwner,
    /// An account handed in is not the one the records or the derivation name.
    Unauthorized,
    /// The cliff has not been reached.
    ClaimNotAvailableYet,
    /// The schedule starts and ends at the same time.
    InvalidVestingPeriod,
    /// More was requested than can be claimed now.
    NothingToClaim,
    /// The treasury does not hold the amount requested.
    InsufficientFunds,
}

} // verus!
