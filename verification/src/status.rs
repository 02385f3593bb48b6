//! The life cycle of a campaign.

use vstd::prelude::*;

verus! {

/// Where a campaign stands in its life cycle.
///
/// A campaign starts `Active`. Every other status is terminal: once a
/// campaign has left `Active`, its status does not change again.
#[derive(Clone, Copy, Debug, PartialEq, Eq, Structural)]
pub enum CampaignStatus {
    /// Open: the goal has not been reached and nothing has resolved the campaign.
    Active,
    /// The goal was reached; the creator may withdraw what was raised.
    Successful,
    /// The deadline passed below the goal; contributors may take refunds.
    Failed,
    /// Closed before its deadline.
    Expired,
}

impl CampaignStatus {
    /// Every status but `Active` is terminal.
    pub open spec fn is_terminal(self) -> bool {
        self != CampaignStatus::Active
    }

    /// The status that an active campaign resolves to once its deadline has
    /// passed: `Successful` with the goal met, `Failed` below it.
    pub open spec fn resolved(total: int, goal: int) -> CampaignStatus {
        if total >= goal {
            CampaignStatus::Successful
        } else {
            CampaignStatus::Failed
        }
    }
}

} // verus!
