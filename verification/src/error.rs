//! Why an operation on a campaign is refused.

use vstd::prelude::*;

verus! {

/// The reason for which an operation was refused. A refused operation leaves
/// the campaign exactly as it was.
#[derive(Clone, Copy, Debug, PartialEq, Eq, Structural)]
pub enum CampaignError {
    /// A contribution of zero or less.
    InvalidAmount,
    /// A contribution at or after the deadline.
    CampaignEnded,
    /// A withdrawal asked for by someone other than the creator.
    Unauthorized,
    /// A withdrawal from a campaign that is not `Successful`.
    GoalNotMet,
    /// A withdrawal from a campaign whose funds have been withdrawn already.
    NothingToWithdraw,
    /// A refund from a campaign that is still `Active`.
    CampaignStillActive,
    /// A refund from a campaign that has left `Active` without failing.
    CampaignSucceeded,
    /// A refund for someone who holds nothing in the ledger: either they never
    /// contributed or they have been refunded already.
    NoContribution,
    /// A contribution that the books cannot hold: it would take a ledger entry
    /// or the running total past `i128::MAX`, or the ledger past `u32::MAX`
    /// entries.
    Overflow,
}

} // verus!
