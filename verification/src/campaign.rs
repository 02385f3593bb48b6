//! The campaign as it is held in memory, and the operations on it.

use vstd::prelude::*;

use crate::error::CampaignError;
use crate::host::{
    host_text, ledger_entries, ledger_get, ledger_len, ledger_new, ledger_set, ledger_timestamp,
};
use crate::laws::{
    lemma_contribute_accepted, lemma_fresh_campaign, lemma_refund_accepted,
    lemma_resolution_keeps_wf, lemma_withdraw_accepted,
};
use crate::ledger::lemma_sum_bounds;
use crate::model::{CampaignModel, NoticeModel, SettlementModel};
use crate::receipt::{copy_account, text_of, CampaignEvent, Settlement, Transfer};
use crate::status::CampaignStatus;

verus! {

/// One crowdfunding campaign: its terms, its ledger of contributions and the
/// funds in custody. Accounts are named by their address as text; the ledger
/// lives in the host.
pub struct Campaign {
    creator: String,
    goal: i128,
    deadline: u64,
    contributions: soroban_sdk::Map<soroban_sdk::String, i128>,
    total_contributed: i128,
    status: CampaignStatus,
    asset: Option<String>,
}

impl View for Campaign {
    type V = CampaignModel;

    closed spec fn view(&self) -> CampaignModel {
        CampaignModel {
            creator: self.creator@,
            goal: self.goal as int,
            deadline: self.deadline as int,
            ledger: ledger_entries(self.contributions),
            total: self.total_contributed as int,
            status: self.status,
            asset: text_of(self.asset),
        }
    }
}

impl Campaign {
    /// The campaign's invariant: that of its model.
    pub open spec fn wf(&self) -> bool {
        self@.wf()
    }

    /// The account that created the campaign.
    pub fn creator(&self) -> (creator: &str)
        ensures
            creator@ == self@.creator,
    {
        self.creator.as_str()
    }

    /// The amount to be raised.
    pub fn goal(&self) -> (goal: i128)
        ensures
            goal == self@.goal,
    {
        self.goal
    }

    /// The time from which no contribution is accepted any more.
    pub fn deadline(&self) -> (deadline: u64)
        ensures
            deadline == self@.deadline,
    {
        self.deadline
    }

    /// The funds in custody.
    pub fn total_contributed(&self) -> (total: i128)
        ensures
            total == self@.total,
    {
        self.total_contributed
    }

    /// Where the campaign stands, as last recorded.
    pub fn status(&self) -> (status: CampaignStatus)
        ensures
            status == self@.status,
    {
        self.status
    }

    /// The asset in which the campaign is run, if it is not the native one.
    pub fn asset(&self) -> (asset: Option<&str>)
        ensures
            match asset {
                Some(text) => self@.asset == Some(text@),
                None => self@.asset is None,
            },
    {
        match &self.asset {
            Some(text) => Some(text.as_str()),
            None => None,
        }
    }

    /// The ledger entry of `who`: `None` for an account that never
    /// contributed, zero for one that has been refunded.
    pub fn contribution_of(&self, who: &str) -> (held: Option<i128>)
        requires
            host_text(who@),
        ensures
            match held {
                Some(amount) => self@.ledger.contains_key(who@) && self@.ledger[who@] == amount,
                None => !self@.ledger.contains_key(who@),
            },
    {
        ledger_get(&self.contributions, who)
    }
}

/// The campaign engine: every operation of a campaign's life.
///
/// An operation either is accepted, changes the campaign and says what the
/// host is to do, or is refused with a reason and changes nothing.
pub struct Crowdfunding;

/// What a contribution made at the time `now` does to the campaign and gives
/// back.
pub open spec fn contribution_outcome(
    before: CampaignModel,
    now: int,
    who: Seq<char>,
    amount: int,
    after: CampaignModel,
    outcome: Result<NoticeModel, CampaignError>,
) -> bool {
    match before.contribute(now, who, amount) {
        Ok(next) => {
            after == next && outcome == Ok::<NoticeModel, CampaignError>(
                CampaignModel::contribution_notice(who, amount),
            )
        },
        Err(reason) => {
            after == before && outcome == Err::<NoticeModel, CampaignError>(reason)
        },
    }
}

/// The outcome of an operation that yields a notification, in the model's terms.
pub open spec fn notice_of(
    outcome: Result<CampaignEvent, CampaignError>,
) -> Result<NoticeModel, CampaignError> {
    match outcome {
        Ok(event) => Ok(event@),
        Err(reason) => Err(reason),
    }
}

/// The outcome of a withdrawal or a refund, in the model's terms.
pub open spec fn settlement_of(
    outcome: Result<Settlement, CampaignError>,
) -> Result<SettlementModel, CampaignError> {
    match outcome {
        Ok(settlement) => Ok(settlement@),
        Err(reason) => Err(reason),
    }
}

/// How a campaign and what is handed back match the model of an operation
/// that settles funds: on acceptance the next state and the settlement, on
/// refusal the state as it was and the reason.
pub open spec fn settlement_outcome(
    before: CampaignModel,
    expected: Result<(CampaignModel, SettlementModel), CampaignError>,
    after: CampaignModel,
    outcome: Result<SettlementModel, CampaignError>,
) -> bool {
    match expected {
        Ok((next, settlement)) => {
            after == next && outcome == Ok::<SettlementModel, CampaignError>(settlement)
        },
        Err(reason) => {
            after == before && outcome == Err::<SettlementModel, CampaignError>(reason)
        },
    }
}

impl Crowdfunding {
    /// Creates a campaign of `creator` for `goal`, open until `deadline`, in
    /// `asset` or, without one, in the host's native asset.
    ///
    /// The goal must be positive. The deadline is taken as it is, also where it
    /// lies in the past: such a campaign takes no contribution.
    pub fn create_campaign(
        env: soroban_sdk::Env,
        creator: &str,
        goal: i128,
        deadline: u64,
        asset: Option<String>,
    ) -> (campaign: Campaign)
        requires
            goal > 0,
        ensures
            campaign.wf(),
            campaign@ == CampaignModel::fresh(
                creator@,
                goal as int,
                deadline as int,
                text_of(asset),
            ),
    {
        proof {
            lemma_fresh_campaign(creator@, goal as int, deadline as int, text_of(asset));
        }
        Campaign {
            creator: creator.to_owned(),
            goal,
            deadline,
            contributions: ledger_new(&env),
            total_contributed: 0,
            status: CampaignStatus::Active,
            asset,
        }
    }

    /// Contributes `amount` in the name of `contributor` at the time `now`.
    ///
    /// The contribution is refused with `CampaignEnded` from the deadline on,
    /// else with `InvalidAmount` unless the amount is positive, else with
    /// `Overflow` if the contributor's entry or the funds would pass
    /// `i128::MAX` or the ledger `u32::MAX` entries. Otherwise the amount is
    /// added to the contributor's entry and to the funds, an active campaign
    /// that thereby reaches its goal becomes successful, and the notification
    /// to publish is returned.
    pub fn contribute_at(
        campaign: &mut Campaign,
        now: u64,
        contributor: &str,
        amount: i128,
    ) -> (outcome: Result<CampaignEvent, CampaignError>)
        requires
            old(campaign).wf(),
            host_text(contributor@),
        ensures
            final(campaign).wf(),
            contribution_outcome(
                old(campaign)@,
                now as int,
                contributor@,
                amount as int,
                final(campaign)@,
                notice_of(outcome),
            ),
            now >= old(campaign)@.deadline ==> outcome matches Err(CampaignError::CampaignEnded),
            now < old(campaign)@.deadline && amount <= 0 ==> outcome matches Err(
                CampaignError::InvalidAmount,
            ),
            outcome is Err ==> final(campaign)@ == old(campaign)@,
    {
        if now >= campaign.deadline {
            return Err(CampaignError::CampaignEnded);
        }
        if amount <= 0 {
            return Err(CampaignError::InvalidAmount);
        }
        let entry = ledger_get(&campaign.contributions, contributor);
        let held = match entry {
            Some(held) => held,
            None => 0,
        };
        let credited = match held.checked_add(amount) {
            Some(credited) => credited,
            None => { return Err(CampaignError::Overflow); },
        };
        let total = match campaign.total_contributed.checked_add(amount) {
            Some(total) => total,
            None => { return Err(CampaignError::Overflow); },
        };
        if entry.is_none() && ledger_len(&campaign.contributions) == u32::MAX {
            return Err(CampaignError::Overflow);
        }
        proof {
            lemma_sum_bounds(campaign@.ledger, contributor@);
            lemma_contribute_accepted(campaign@, now as int, contributor@, amount as int);
        }
        ledger_set(&mut campaign.contributions, contributor, credited);
        campaign.total_contributed = total;
        if campaign.status == CampaignStatus::Active && total >= campaign.goal {
            campaign.status = CampaignStatus::Successful;
        }
        Ok(CampaignEvent::ContributionReceived { contributor: contributor.to_owned(), amount })
    }

    /// Contributes `amount` in the name of `contributor` at the time that the
    /// host's clock shows: what [`Crowdfunding::contribute_at`] does at that
    /// time.
    pub fn contribute(
        env: soroban_sdk::Env,
        campaign: &mut Campaign,
        contributor: &str,
        amount: i128,
    ) -> (outcome: Result<CampaignEvent, CampaignError>)
        requires
            old(campaign).wf(),
            host_text(contributor@),
        ensures
            final(campaign).wf(),
            exists|now: u64|
                contribution_outcome(
                    old(campaign)@,
                    now as int,
                    contributor@,
                    amount as int,
                    final(campaign)@,
                    notice_of(outcome),
                ),
            amount <= 0 ==> outcome is Err,
            outcome is Err ==> final(campaign)@ == old(campaign)@,
    {
        let now = ledger_timestamp(&env);
        Self::contribute_at(campaign, now, contributor, amount)
    }

    /// Withdraws the funds for `requester`.
    ///
    /// The withdrawal is refused with `Unauthorized` unless `requester` is the
    /// creator, else with `GoalNotMet` unless the campaign is successful, else
    /// with `NothingToWithdraw` when no funds are in custody, as after an
    /// earlier withdrawal. Otherwise custody is emptied, and the transfer of
    /// all it held to the creator is returned with its notification.
    pub fn withdraw(
        campaign: &mut Campaign,
        requester: &str,
    ) -> (outcome: Result<Settlement, CampaignError>)
        requires
            old(campaign).wf(),
        ensures
            final(campaign).wf(),
            settlement_outcome(
                old(campaign)@,
                old(campaign)@.withdraw(requester@),
                final(campaign)@,
                settlement_of(outcome),
            ),
    {
        if requester.to_owned() != campaign.creator {
            return Err(CampaignError::Unauthorized);
        }
        if campaign.status != CampaignStatus::Successful {
            return Err(CampaignError::GoalNotMet);
        }
        if campaign.total_contributed <= 0 {
            return Err(CampaignError::NothingToWithdraw);
        }
        proof {
            lemma_withdraw_accepted(campaign@, requester@);
        }
        let amount = campaign.total_contributed;
        campaign.total_contributed = 0;
        Ok(
            Settlement {
                transfer: Transfer {
                    recipient: campaign.creator.clone(),
                    amount,
                    asset: copy_account(&campaign.asset),
                },
                event: CampaignEvent::FundsWithdrawn { creator: campaign.creator.clone(), amount },
            },
        )
    }

    /// Refunds `requester`.
    ///
    /// The refund is refused with `CampaignStillActive` for an active
    /// campaign, else with `CampaignSucceeded` unless the campaign has failed,
    /// else with `NoContribution` when the ledger holds nothing for
    /// `requester`. Otherwise the entry is set to zero, the funds shrink by
    /// what it held, and the transfer of that amount to `requester` is
    /// returned with its notification.
    pub fn refund(
        campaign: &mut Campaign,
        requester: &str,
    ) -> (outcome: Result<Settlement, CampaignError>)
        requires
            old(campaign).wf(),
            host_text(requester@),
        ensures
            final(campaign).wf(),
            settlement_outcome(
                old(campaign)@,
                old(campaign)@.refund(requester@),
                final(campaign)@,
                settlement_of(outcome),
            ),
    {
        if campaign.status == CampaignStatus::Active {
            return Err(CampaignError::CampaignStillActive);
        }
        if campaign.status != CampaignStatus::Failed {
            return Err(CampaignError::CampaignSucceeded);
        }
        let amount = match ledger_get(&campaign.contributions, requester) {
            Some(held) => held,
            None => 0,
        };
        if amount <= 0 {
            return Err(CampaignError::NoContribution);
        }
        proof {
            lemma_refund_accepted(campaign@, requester@);
        }
        ledger_set(&mut campaign.contributions, requester, 0);
        campaign.total_contributed = campaign.total_contributed - amount;
        Ok(
            Settlement {
                transfer: Transfer {
                    recipient: requester.to_owned(),
                    amount,
                    asset: copy_account(&campaign.asset),
                },
                event: CampaignEvent::RefundIssued { contributor: requester.to_owned(), amount },
            },
        )
    }

    /// Looks at the status at the time `now`, and records it: an active
    /// campaign whose deadline has passed becomes successful if the funds have
    /// reached the goal and failed if they have not. Any other campaign is
    /// left as it is. The status returned is the one recorded.
    pub fn check_status_at(campaign: &mut Campaign, now: u64) -> (status: CampaignStatus)
        requires
            old(campaign).wf(),
        ensures
            final(campaign).wf(),
            final(campaign)@ == old(campaign)@.resolve(now as int),
            status == final(campaign)@.status,
    {
        proof {
            lemma_resolution_keeps_wf(campaign@, now as int);
        }
        if campaign.status == CampaignStatus::Active && now >= campaign.deadline {
            campaign.status =
            if campaign.total_contributed >= campaign.goal {
                CampaignStatus::Successful
            } else {
                CampaignStatus::Failed
            };
        }
        campaign.status
    }

    /// Looks at the status at the time that the host's clock shows: what
    /// [`Crowdfunding::check_status_at`] does at that time.
    pub fn check_status(env: soroban_sdk::Env, campaign: &mut Campaign) -> (status: CampaignStatus)
        requires
            old(campaign).wf(),
        ensures
            final(campaign).wf(),
            exists|now: u64| final(campaign)@ == #[trigger] old(campaign)@.resolve(now as int),
            status == final(campaign)@.status,
    {
        let now = ledger_timestamp(&env);
        Self::check_status_at(campaign, now)
    }

    /// Closes the campaign at the time `now`: an active campaign whose
    /// deadline has not passed expires; any other campaign is treated as by
    /// [`Crowdfunding::check_status_at`], so that an active campaign is
    /// resolved and one that has left `Active` is left as it is.
    pub fn finalize_campaign_at(campaign: &mut Campaign, now: u64)
        requires
            old(campaign).wf(),
        ensures
            final(campaign).wf(),
            final(campaign)@ == old(campaign)@.finalize(now as int),
    {
        if campaign.status == CampaignStatus::Active && now < campaign.deadline {
            proof {
                lemma_resolution_keeps_wf(campaign@, now as int);
            }
            campaign.status = CampaignStatus::Expired;
        } else {
            Self::check_status_at(campaign, now);
        }
    }

    /// Closes the campaign at the time that the host's clock shows: what
    /// [`Crowdfunding::finalize_campaign_at`] does at that time.
    pub fn finalize_campaign(env: soroban_sdk::Env, campaign: &mut Campaign)
        requires
            old(campaign).wf(),
        ensures
            final(campaign).wf(),
            exists|now: u64| final(campaign)@ == #[trigger] old(campaign)@.finalize(now as int),
    {
        let now = ledger_timestamp(&env);
        Self::finalize_campaign_at(campaign, now)
    }
}

} // verus!
