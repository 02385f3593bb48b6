//! What an accepted operation hands back: the notification to publish and,
//! for a withdrawal or a refund, the transfer to make. The host carries both
//! out; the campaign itself moves no funds.

use vstd::prelude::*;

use crate::model::{NoticeModel, SettlementModel, TransferModel};

verus! {

/// The text of an optional account, if there is one.
pub open spec fn text_of(account: Option<String>) -> Option<Seq<char>> {
    match account {
        Some(text) => Some(text@),
        None => None,
    }
}

/// A notification for observers outside the campaign.
#[derive(Debug, PartialEq, Eq)]
pub enum CampaignEvent {
    /// `contributor` has contributed `amount`.
    ContributionReceived { contributor: String, amount: i128 },
    /// `creator` has withdrawn the `amount` that was raised.
    FundsWithdrawn { creator: String, amount: i128 },
    /// `contributor` has been refunded the `amount` they had contributed.
    RefundIssued { contributor: String, amount: i128 },
}

impl View for CampaignEvent {
    type V = NoticeModel;

    open spec fn view(&self) -> NoticeModel {
        match *self {
            CampaignEvent::ContributionReceived { contributor, amount } => {
                NoticeModel::ContributionReceived { contributor: contributor@, amount: amount as int }
            },
            CampaignEvent::FundsWithdrawn { creator, amount } => {
                NoticeModel::FundsWithdrawn { creator: creator@, amount: amount as int }
            },
            CampaignEvent::RefundIssued { contributor, amount } => {
                NoticeModel::RefundIssued { contributor: contributor@, amount: amount as int }
            },
        }
    }
}

/// An order to move `amount` out of custody to `recipient`, in `asset`, or in
/// the host's native asset if there is none.
#[derive(Debug, PartialEq, Eq)]
pub struct Transfer {
    pub recipient: String,
    pub amount: i128,
    pub asset: Option<String>,
}

impl View for Transfer {
    type V = TransferModel;

    open spec fn view(&self) -> TransferModel {
        TransferModel {
            recipient: self.recipient@,
            amount: self.amount as int,
            asset: text_of(self.asset),
        }
    }
}

/// What the host owes after a withdrawal or a refund: the transfer, then the
/// notification of it.
#[derive(Debug, PartialEq, Eq)]
pub struct Settlement {
    pub transfer: Transfer,
    pub event: CampaignEvent,
}

impl View for Settlement {
    type V = SettlementModel;

    open spec fn view(&self) -> SettlementModel {
        SettlementModel { transfer: self.transfer@, notice: self.event@ }
    }
}

/// A copy of an optional account.
pub(crate) fn copy_account(account: &Option<String>) -> (copy: Option<String>)
    ensures
        text_of(copy) == text_of(*account),
{
    match account {
        Some(text) => Some(text.clone()),
        None => None,
    }
}

} // verus!
