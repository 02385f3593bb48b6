//! The campaign as a mathematical state machine.
//!
//! A [`CampaignModel`] is what a campaign is, apart from how it is stored:
//! accounts are texts, amounts and times are integers, the ledger is a map.
//! Each operation is a function from a state and its arguments to the next
//! state, or to the reason for which the operation is refused. The executable
//! operations are specified against these functions.

use vstd::prelude::*;

use crate::error::CampaignError;
use crate::ledger::{held_by, ledger_sound, ledger_sum, no_entries};
use crate::status::CampaignStatus;

verus! {

/// The state of a campaign.
#[verifier::ext_equal]
pub struct CampaignModel {
    /// The account that created the campaign.
    pub creator: Seq<char>,
    /// The amount to be raised.
    pub goal: int,
    /// The time from which no contribution is accepted any more.
    pub deadline: int,
    /// For each contributor, the amount held for them.
    pub ledger: Map<Seq<char>, int>,
    /// The funds in custody.
    pub total: int,
    /// Where the campaign stands.
    pub status: CampaignStatus,
    /// The asset in which the campaign is run; `None` is the host's native asset.
    pub asset: Option<Seq<char>>,
}

/// A notification for observers outside the campaign.
pub enum NoticeModel {
    ContributionReceived { contributor: Seq<char>, amount: int },
    FundsWithdrawn { creator: Seq<char>, amount: int },
    RefundIssued { contributor: Seq<char>, amount: int },
}

/// An order to move `amount` out of custody to `recipient`.
pub struct TransferModel {
    pub recipient: Seq<char>,
    pub amount: int,
    pub asset: Option<Seq<char>>,
}

/// What the host owes after a withdrawal or a refund: the transfer, then the
/// notification of it.
pub struct SettlementModel {
    pub transfer: TransferModel,
    pub notice: NoticeModel,
}

/// One call of `contribute`: `who` offers `amount` at the time `now`.
pub struct Pledge {
    pub now: int,
    pub who: Seq<char>,
    pub amount: int,
}

/// The sum of the amounts of a series of pledges.
pub open spec fn pledged(pledges: Seq<Pledge>) -> int
    decreases pledges.len(),
{
    if pledges.len() == 0 {
        0
    } else {
        pledged(pledges.drop_last()) + pledges.last().amount
    }
}

/// The sum of the amounts that `who` offers in a series of pledges.
pub open spec fn pledged_by(pledges: Seq<Pledge>, who: Seq<char>) -> int
    decreases pledges.len(),
{
    if pledges.len() == 0 {
        0
    } else if pledges.last().who == who {
        pledged_by(pledges.drop_last(), who) + pledges.last().amount
    } else {
        pledged_by(pledges.drop_last(), who)
    }
}

/// The accounts that offer something in a series of pledges.
pub open spec fn pledgers(pledges: Seq<Pledge>) -> Set<Seq<char>>
    decreases pledges.len(),
{
    if pledges.len() == 0 {
        Set::empty()
    } else {
        pledgers(pledges.drop_last()).insert(pledges.last().who)
    }
}

/// A series of pledges that a new campaign open until `deadline` can book in
/// full: each is positive and made before the deadline, together they stay
/// within `i128::MAX`, and no more than `u32::MAX` accounts take part.
pub open spec fn bookable(pledges: Seq<Pledge>, deadline: int) -> bool {
    &&& forall|i: int|
        0 <= i < pledges.len() ==> (#[trigger] pledges[i]).now < deadline && pledges[i].amount > 0
    &&& pledged(pledges) <= i128::MAX
    &&& pledgers(pledges).len() <= u32::MAX
}

/// An operation on a campaign, with its arguments.
pub enum Operation {
    Contribute { now: int, who: Seq<char>, amount: int },
    Withdraw { who: Seq<char> },
    Refund { who: Seq<char> },
    CheckStatus { now: int },
    Finalize { now: int },
}

impl CampaignModel {
    /// A campaign as it is created: active, with nothing contributed.
    pub open spec fn fresh(
        creator: Seq<char>,
        goal: int,
        deadline: int,
        asset: Option<Seq<char>>,
    ) -> CampaignModel {
        CampaignModel {
            creator,
            goal,
            deadline,
            ledger: no_entries(),
            total: 0,
            status: CampaignStatus::Active,
            asset,
        }
    }

    /// The invariant of a campaign.
    ///
    /// The funds in custody never exceed what the ledger records, and equal it
    /// until the creator withdraws, which only a successful campaign allows. A
    /// campaign is active only below its goal, and successful only if its
    /// ledger has reached the goal.
    pub open spec fn wf(self) -> bool {
        &&& self.goal > 0
        &&& ledger_sound(self.ledger)
        &&& 0 <= self.total <= ledger_sum(self.ledger)
        &&& self.status != CampaignStatus::Successful ==> self.total == ledger_sum(self.ledger)
        &&& self.status == CampaignStatus::Successful ==> ledger_sum(self.ledger) >= self.goal
        &&& self.status == CampaignStatus::Active ==> self.total < self.goal
    }

    /// The deadline has passed once the clock has reached it.
    pub open spec fn deadline_passed(self, now: int) -> bool {
        now >= self.deadline
    }

    /// What `who` holds in the ledger.
    pub open spec fn held(self, who: Seq<char>) -> int {
        held_by(self.ledger, who)
    }

    /// The campaign with another status and nothing else changed.
    pub open spec fn with_status(self, status: CampaignStatus) -> CampaignModel {
        CampaignModel { status, ..self }
    }

    /// The state after an accepted contribution: `amount` is added to what
    /// `who` holds and to the funds, and an active campaign that thereby
    /// reaches its goal becomes successful.
    pub open spec fn credited(self, who: Seq<char>, amount: int) -> CampaignModel {
        CampaignModel {
            ledger: self.ledger.insert(who, self.held(who) + amount),
            total: self.total + amount,
            status: if self.status == CampaignStatus::Active && self.total + amount >= self.goal {
                CampaignStatus::Successful
            } else {
                self.status
            },
            ..self
        }
    }

    /// The books cannot hold a contribution of `amount` by `who`: the entry or
    /// the funds would pass `i128::MAX`, or a new entry would take the ledger
    /// past `u32::MAX` entries.
    pub open spec fn overflows(self, who: Seq<char>, amount: int) -> bool {
        ||| self.held(who) + amount > i128::MAX
        ||| self.total + amount > i128::MAX
        ||| !self.ledger.contains_key(who) && self.ledger.dom().len() >= u32::MAX
    }

    /// A contribution of `amount` by `who` at the time `now`.
    ///
    /// It is refused at or after the deadline, then for an amount that is not
    /// positive, then if the books cannot hold it. A campaign that has left
    /// `Active` before its deadline still takes contributions; its status
    /// stays as it is.
    pub open spec fn contribute(
        self,
        now: int,
        who: Seq<char>,
        amount: int,
    ) -> Result<CampaignModel, CampaignError> {
        if self.deadline_passed(now) {
            Err(CampaignError::CampaignEnded)
        } else if amount <= 0 {
            Err(CampaignError::InvalidAmount)
        } else if self.overflows(who, amount) {
            Err(CampaignError::Overflow)
        } else {
            Ok(self.credited(who, amount))
        }
    }

    /// The notification owed for an accepted contribution.
    pub open spec fn contribution_notice(who: Seq<char>, amount: int) -> NoticeModel {
        NoticeModel::ContributionReceived { contributor: who, amount }
    }

    /// What the host owes the creator for a withdrawal: all funds in custody.
    pub open spec fn withdrawal(self) -> SettlementModel {
        SettlementModel {
            transfer: TransferModel {
                recipient: self.creator,
                amount: self.total,
                asset: self.asset,
            },
            notice: NoticeModel::FundsWithdrawn { creator: self.creator, amount: self.total },
        }
    }

    /// A withdrawal asked for by `who`.
    ///
    /// Only the creator may withdraw, only from a successful campaign, and
    /// only while there are funds in custody. The withdrawal empties custody.
    pub open spec fn withdraw(
        self,
        who: Seq<char>,
    ) -> Result<(CampaignModel, SettlementModel), CampaignError> {
        if who != self.creator {
            Err(CampaignError::Unauthorized)
        } else if self.status != CampaignStatus::Successful {
            Err(CampaignError::GoalNotMet)
        } else if self.total <= 0 {
            Err(CampaignError::NothingToWithdraw)
        } else {
            Ok((CampaignModel { total: 0, ..self }, self.withdrawal()))
        }
    }

    /// The state after a refund to `who`: their entry is set to zero, not
    /// removed, and the funds shrink by what it held.
    pub open spec fn debited(self, who: Seq<char>) -> CampaignModel {
        CampaignModel {
            ledger: self.ledger.insert(who, 0),
            total: self.total - self.held(who),
            ..self
        }
    }

    /// What the host owes `who` for a refund: all that the ledger holds for them.
    pub open spec fn refunding(self, who: Seq<char>) -> SettlementModel {
        SettlementModel {
            transfer: TransferModel { recipient: who, amount: self.held(who), asset: self.asset },
            notice: NoticeModel::RefundIssued { contributor: who, amount: self.held(who) },
        }
    }

    /// A refund asked for by `who`.
    ///
    /// Refunds are paid from a failed campaign only, to those for whom the
    /// ledger holds something. An active campaign refuses with
    /// `CampaignStillActive`, a successful or expired one with
    /// `CampaignSucceeded`.
    pub open spec fn refund(
        self,
        who: Seq<char>,
    ) -> Result<(CampaignModel, SettlementModel), CampaignError> {
        if self.status == CampaignStatus::Active {
            Err(CampaignError::CampaignStillActive)
        } else if self.status != CampaignStatus::Failed {
            Err(CampaignError::CampaignSucceeded)
        } else if self.held(who) <= 0 {
            Err(CampaignError::NoContribution)
        } else {
            Ok((self.debited(who), self.refunding(who)))
        }
    }

    /// The state after a look at the status at the time `now`: an active
    /// campaign whose deadline has passed is resolved, and nothing else changes.
    pub open spec fn resolve(self, now: int) -> CampaignModel {
        if self.status == CampaignStatus::Active && self.deadline_passed(now) {
            self.with_status(CampaignStatus::resolved(self.total, self.goal))
        } else {
            self
        }
    }

    /// The state after the campaign is closed at the time `now`: an active
    /// campaign is resolved if its deadline has passed and expires if it has
    /// not; a campaign that has left `Active` stays as it is.
    pub open spec fn finalize(self, now: int) -> CampaignModel {
        if self.status == CampaignStatus::Active && !self.deadline_passed(now) {
            self.with_status(CampaignStatus::Expired)
        } else {
            self.resolve(now)
        }
    }

    /// The state after a pledge: the next state if the contribution is
    /// accepted, the same state if it is refused.
    pub open spec fn after_pledge(self, pledge: Pledge) -> CampaignModel {
        match self.contribute(pledge.now, pledge.who, pledge.amount) {
            Ok(next) => next,
            Err(_) => self,
        }
    }

    /// The state after a series of pledges, made one after the other.
    pub open spec fn after_pledges(self, pledges: Seq<Pledge>) -> CampaignModel
        decreases pledges.len(),
    {
        if pledges.len() == 0 {
            self
        } else {
            self.after_pledges(pledges.drop_last()).after_pledge(pledges.last())
        }
    }

    /// The state after an operation: the next state if it is accepted, the
    /// same state if it is refused.
    pub open spec fn after(self, op: Operation) -> CampaignModel {
        match op {
            Operation::Contribute { now, who, amount } => match self.contribute(now, who, amount) {
                Ok(next) => next,
                Err(_) => self,
            },
            Operation::Withdraw { who } => match self.withdraw(who) {
                Ok((next, _)) => next,
                Err(_) => self,
            },
            Operation::Refund { who } => match self.refund(who) {
                Ok((next, _)) => next,
                Err(_) => self,
            },
            Operation::CheckStatus { now } => self.resolve(now),
            Operation::Finalize { now } => self.finalize(now),
        }
    }

    /// The state after a series of operations, made one after the other.
    pub open spec fn after_all(self, ops: Seq<Operation>) -> CampaignModel
        decreases ops.len(),
    {
        if ops.len() == 0 {
            self
        } else {
            self.after_all(ops.drop_last()).after(ops.last())
        }
    }

    /// What an operation takes into custody: the amount of an accepted
    /// contribution.
    pub open spec fn paid_in(self, op: Operation) -> int {
        match op {
            Operation::Contribute { now, who, amount } => {
                if self.contribute(now, who, amount) is Ok {
                    amount
                } else {
                    0
                }
            },
            _ => 0,
        }
    }

    /// What an operation releases from custody: the amount of the transfer
    /// that an accepted withdrawal or refund orders.
    pub open spec fn paid_out(self, op: Operation) -> int {
        match op {
            Operation::Withdraw { who } => match self.withdraw(who) {
                Ok((_, settlement)) => settlement.transfer.amount,
                Err(_) => 0,
            },
            Operation::Refund { who } => match self.refund(who) {
                Ok((_, settlement)) => settlement.transfer.amount,
                Err(_) => 0,
            },
            _ => 0,
        }
    }
}

} // verus!
