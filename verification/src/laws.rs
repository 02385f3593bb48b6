//! What holds of every campaign, proved of the model.

use vstd::prelude::*;

use crate::error::CampaignError;
use crate::ledger::{ledger_sound, ledger_sum, lemma_sum_bounds, lemma_sum_empty, lemma_sum_insert};
use crate::model::{
    bookable, pledged, pledged_by, pledgers, CampaignModel, Operation, Pledge, SettlementModel,
};
use crate::status::CampaignStatus;

verus! {

/// A campaign created with a positive goal is well formed: it is active,
/// holds no funds and has an empty ledger.
pub proof fn lemma_fresh_campaign(
    creator: Seq<char>,
    goal: int,
    deadline: int,
    asset: Option<Seq<char>>,
)
    requires
        goal > 0,
    ensures
        CampaignModel::fresh(creator, goal, deadline, asset).wf(),
        CampaignModel::fresh(creator, goal, deadline, asset).status == CampaignStatus::Active,
        CampaignModel::fresh(creator, goal, deadline, asset).total == 0,
        CampaignModel::fresh(creator, goal, deadline, asset).ledger == Map::<
            Seq<char>,
            int,
        >::empty(),
{
    lemma_sum_empty::<Seq<char>>();
}

/// An accepted contribution keeps the campaign well formed, adds the amount
/// to what the contributor holds and to the funds, and touches no other
/// entry of the ledger.
pub proof fn lemma_contribute_accepted(c: CampaignModel, now: int, who: Seq<char>, amount: int)
    requires
        c.wf(),
        c.contribute(now, who, amount) is Ok,
    ensures
        c.contribute(now, who, amount).unwrap().wf(),
        c.contribute(now, who, amount).unwrap().total == c.total + amount,
        c.contribute(now, who, amount).unwrap().held(who) == c.held(who) + amount,
        forall|other: Seq<char>|
            other != who ==> c.contribute(now, who, amount).unwrap().held(other) == c.held(other),
        ledger_sum(c.contribute(now, who, amount).unwrap().ledger) == ledger_sum(c.ledger)
            + amount,
{
    let next = c.credited(who, amount);
    lemma_sum_insert(c.ledger, who, c.held(who) + amount);
    lemma_sum_bounds(c.ledger, who);
    assert(ledger_sound(next.ledger)) by {
        assert forall|k: Seq<char>| next.ledger.contains_key(k) implies #[trigger] next.ledger[k]
            >= 0 by {
            if k != who {
                assert(c.ledger.contains_key(k));
            }
        }
    }
}

/// A withdrawal keeps the campaign well formed, pays out all funds in
/// custody and leaves none.
pub proof fn lemma_withdraw_accepted(c: CampaignModel, who: Seq<char>)
    requires
        c.wf(),
        c.withdraw(who) is Ok,
    ensures
        c.withdraw(who).unwrap().0.wf(),
        c.withdraw(who).unwrap().0.total == 0,
        c.withdraw(who).unwrap().1.transfer.amount == c.total,
        c.withdraw(who).unwrap().1.transfer.recipient == c.creator,
        c.total > 0,
{
}

/// A refund keeps the campaign well formed, pays out exactly what the ledger
/// held for the contributor, and leaves every other entry as it was.
pub proof fn lemma_refund_accepted(c: CampaignModel, who: Seq<char>)
    requires
        c.wf(),
        c.refund(who) is Ok,
    ensures
        c.refund(who).unwrap().0.wf(),
        c.refund(who).unwrap().0.held(who) == 0,
        c.refund(who).unwrap().0.total == c.total - c.held(who),
        c.refund(who).unwrap().1.transfer.amount == c.held(who),
        c.refund(who).unwrap().1.transfer.recipient == who,
        0 < c.held(who) <= c.total,
        forall|other: Seq<char>|
            other != who ==> c.refund(who).unwrap().0.held(other) == c.held(other),
{
    let next = c.refund(who).unwrap().0;
    lemma_sum_insert(c.ledger, who, 0);
    lemma_sum_bounds(c.ledger, who);
    assert(ledger_sound(next.ledger)) by {
        assert forall|k: Seq<char>| next.ledger.contains_key(k) implies #[trigger] next.ledger[k]
            >= 0 by {
            if k != who {
                assert(c.ledger.contains_key(k));
            }
        }
    }
}

/// Resolving and closing a campaign keep it well formed.
pub proof fn lemma_resolution_keeps_wf(c: CampaignModel, now: int)
    requires
        c.wf(),
    ensures
        c.resolve(now).wf(),
        c.finalize(now).wf(),
{
}

/// From the deadline on every contribution is refused with `CampaignEnded`,
/// whatever its amount.
pub proof fn lemma_contribution_after_deadline(
    c: CampaignModel,
    now: int,
    who: Seq<char>,
    amount: int,
)
    requires
        now >= c.deadline,
    ensures
        c.contribute(now, who, amount) == Err::<CampaignModel, CampaignError>(
            CampaignError::CampaignEnded,
        ),
        c.after(Operation::Contribute { now, who, amount }) == c,
{
}

/// Before the deadline a contribution of zero or less is refused with
/// `InvalidAmount`.
pub proof fn lemma_contribution_not_positive(
    c: CampaignModel,
    now: int,
    who: Seq<char>,
    amount: int,
)
    requires
        now < c.deadline,
        amount <= 0,
    ensures
        c.contribute(now, who, amount) == Err::<CampaignModel, CampaignError>(
            CampaignError::InvalidAmount,
        ),
        c.after(Operation::Contribute { now, who, amount }) == c,
{
}

/// A series of pledges sums to no less than any of its beginnings, if no
/// amount is negative.
pub proof fn lemma_pledged_grows(pledges: Seq<Pledge>, n: int)
    requires
        0 <= n <= pledges.len(),
        forall|i: int| 0 <= i < pledges.len() ==> (#[trigger] pledges[i]).amount >= 0,
    ensures
        0 <= pledged(pledges.take(n)) <= pledged(pledges),
    decreases pledges.len() - n,
{
    if n == pledges.len() {
        assert(pledges.take(n) =~= pledges);
        lemma_pledged_is_not_negative(pledges);
    } else {
        lemma_pledged_grows(pledges, n + 1);
        let longer = pledges.take(n + 1);
        assert(longer.drop_last() =~= pledges.take(n));
        assert(longer.last() == pledges[n]);
        assert(pledged(longer) == pledged(pledges.take(n)) + pledges[n].amount);
        assert forall|i: int| 0 <= i < pledges.take(n).len() implies (#[trigger] pledges.take(
            n,
        )[i]).amount >= 0 by {
            assert(pledges.take(n)[i] == pledges[i]);
        }
        lemma_pledged_is_not_negative(pledges.take(n));
    }
}

/// A series of pledges without a negative amount sums to zero or more.
pub proof fn lemma_pledged_is_not_negative(pledges: Seq<Pledge>)
    requires
        forall|i: int| 0 <= i < pledges.len() ==> (#[trigger] pledges[i]).amount >= 0,
    ensures
        pledged(pledges) >= 0,
    decreases pledges.len(),
{
    if pledges.len() > 0 {
        lemma_pledged_is_not_negative(pledges.drop_last());
    }
}

/// Finitely many accounts offer something in a series of pledges, and no
/// fewer in the whole series than in any of its beginnings.
pub proof fn lemma_pledgers_grow(pledges: Seq<Pledge>, n: int)
    requires
        0 <= n <= pledges.len(),
    ensures
        pledgers(pledges).finite(),
        pledgers(pledges.take(n)).finite(),
        pledgers(pledges.take(n)).len() <= pledgers(pledges).len(),
    decreases pledges.len() - n,
{
    lemma_pledgers_are_finite(pledges);
    if n == pledges.len() {
        assert(pledges.take(n) =~= pledges);
    } else {
        lemma_pledgers_grow(pledges, n + 1);
        let longer = pledges.take(n + 1);
        assert(longer.drop_last() =~= pledges.take(n));
        lemma_pledgers_are_finite(pledges.take(n));
        assert(pledgers(longer) == pledgers(pledges.take(n)).insert(longer.last().who));
    }
}

/// Finitely many accounts offer something in a series of pledges.
pub proof fn lemma_pledgers_are_finite(pledges: Seq<Pledge>)
    ensures
        pledgers(pledges).finite(),
    decreases pledges.len(),
{
    if pledges.len() > 0 {
        lemma_pledgers_are_finite(pledges.drop_last());
    }
}

/// Every beginning of a bookable series of pledges is bookable.
pub proof fn lemma_beginning_is_bookable(pledges: Seq<Pledge>, deadline: int, n: int)
    requires
        bookable(pledges, deadline),
        0 <= n <= pledges.len(),
    ensures
        bookable(pledges.take(n), deadline),
{
    lemma_pledged_grows(pledges, n);
    lemma_pledgers_grow(pledges, n);
    assert forall|i: int| 0 <= i < pledges.take(n).len() implies (#[trigger] pledges.take(
        n,
    )[i]).now < deadline && pledges.take(n)[i].amount > 0 by {
        assert(pledges.take(n)[i] == pledges[i]);
    }
}

/// Contributions add up. Of a new campaign that receives a series of
/// contributions, each positive and made before the deadline, together within
/// `i128::MAX` and by no more than `u32::MAX` accounts: every one is accepted,
/// the funds are the sum of the amounts, each contributor holds the sum of
/// their own, and the campaign is successful if that sum has reached the goal
/// and active if it has not.
pub proof fn lemma_contributions_add_up(
    creator: Seq<char>,
    goal: int,
    deadline: int,
    asset: Option<Seq<char>>,
    pledges: Seq<Pledge>,
)
    requires
        goal > 0,
        bookable(pledges, deadline),
    ensures
        ({
            let end = CampaignModel::fresh(creator, goal, deadline, asset).after_pledges(pledges);
            &&& end.wf()
            &&& end.ledger.dom() == pledgers(pledges)
            &&& end.total == pledged(pledges)
            &&& ledger_sum(end.ledger) == pledged(pledges)
            &&& forall|who: Seq<char>| #[trigger] end.held(who) == pledged_by(pledges, who)
            &&& end.status == if pledged(pledges) >= goal {
                CampaignStatus::Successful
            } else {
                CampaignStatus::Active
            }
        }),
        pledges.len() > 0 ==> CampaignModel::fresh(creator, goal, deadline, asset).after_pledges(
            pledges.drop_last(),
        ).contribute(pledges.last().now, pledges.last().who, pledges.last().amount) is Ok,
    decreases pledges.len(),
{
    let start = CampaignModel::fresh(creator, goal, deadline, asset);
    if pledges.len() == 0 {
        lemma_fresh_campaign(creator, goal, deadline, asset);
    } else {
        let earlier = pledges.drop_last();
        let last = pledges.last();
        assert(last == pledges[pledges.len() - 1]);
        assert forall|i: int| 0 <= i < earlier.len() implies (#[trigger] earlier[i]).now < deadline
            && earlier[i].amount > 0 by {
            assert(earlier[i] == pledges[i]);
        }
        lemma_pledged_is_not_negative(earlier);
        lemma_pledgers_are_finite(earlier);
        assert(bookable(earlier, deadline));
        lemma_contributions_add_up(creator, goal, deadline, asset, earlier);
        let mid = start.after_pledges(earlier);
        lemma_terms_are_fixed_by_pledges(start, earlier);
        lemma_sum_bounds(mid.ledger, last.who);
        assert(mid.contribute(last.now, last.who, last.amount) is Ok);
        lemma_contribute_accepted(mid, last.now, last.who, last.amount);
        let end = start.after_pledges(pledges);
        assert(end == mid.contribute(last.now, last.who, last.amount).unwrap());
        assert(end.ledger.dom() =~= pledgers(pledges));
        assert forall|who: Seq<char>| #[trigger] end.held(who) == pledged_by(pledges, who) by {
            assert(mid.held(who) == pledged_by(earlier, who));
        }
    }
}

/// The status follows the running sum. Under the conditions of
/// [`lemma_contributions_add_up`], after each number of contributions the
/// campaign is successful exactly if the sum so far has reached the goal; as
/// the sums only grow, a campaign that has become successful stays so.
pub proof fn lemma_success_follows_running_sum(
    creator: Seq<char>,
    goal: int,
    deadline: int,
    asset: Option<Seq<char>>,
    pledges: Seq<Pledge>,
)
    requires
        goal > 0,
        bookable(pledges, deadline),
    ensures
        forall|n: int|
            0 <= n <= pledges.len() ==> {
                let then = #[trigger] CampaignModel::fresh(
                    creator,
                    goal,
                    deadline,
                    asset,
                ).after_pledges(pledges.take(n));
                &&& then.total == pledged(pledges.take(n))
                &&& (then.status == CampaignStatus::Successful) == (pledged(pledges.take(n))
                    >= goal)
                &&& (then.status == CampaignStatus::Active) == (pledged(pledges.take(n)) < goal)
            },
        forall|m: int, n: int|
            0 <= m <= n <= pledges.len() ==> #[trigger] pledged(pledges.take(m)) <= #[trigger] pledged(
                pledges.take(n),
            ),
{
    assert forall|n: int| 0 <= n <= pledges.len() implies {
        let then = #[trigger] CampaignModel::fresh(creator, goal, deadline, asset).after_pledges(
            pledges.take(n),
        );
        &&& then.total == pledged(pledges.take(n))
        &&& (then.status == CampaignStatus::Successful) == (pledged(pledges.take(n)) >= goal)
        &&& (then.status == CampaignStatus::Active) == (pledged(pledges.take(n)) < goal)
    } by {
        lemma_beginning_is_bookable(pledges, deadline, n);
        lemma_contributions_add_up(creator, goal, deadline, asset, pledges.take(n));
    }
    assert forall|m: int, n: int| 0 <= m <= n <= pledges.len() implies #[trigger] pledged(
        pledges.take(m),
    ) <= #[trigger] pledged(pledges.take(n)) by {
        assert(pledges.take(n).take(m) =~= pledges.take(m));
        lemma_pledged_grows(pledges.take(n), m);
    }
}

/// Pledges change neither the creator, the goal, the deadline nor the asset.
pub proof fn lemma_terms_are_fixed_by_pledges(c: CampaignModel, pledges: Seq<Pledge>)
    ensures
        c.after_pledges(pledges).creator == c.creator,
        c.after_pledges(pledges).goal == c.goal,
        c.after_pledges(pledges).deadline == c.deadline,
        c.after_pledges(pledges).asset == c.asset,
    decreases pledges.len(),
{
    if pledges.len() > 0 {
        lemma_terms_are_fixed_by_pledges(c, pledges.drop_last());
    }
}

/// A campaign that ends below its goal gives every contribution back. Of a
/// new campaign that has booked a series of pledges short of its goal and is
/// resolved from the deadline on: it has failed, and a refund pays each
/// contributor the sum of what they pledged.
pub proof fn lemma_failed_campaign_refunds_in_full(
    creator: Seq<char>,
    goal: int,
    deadline: int,
    asset: Option<Seq<char>>,
    pledges: Seq<Pledge>,
    now: int,
    who: Seq<char>,
)
    requires
        goal > 0,
        bookable(pledges, deadline),
        pledged(pledges) < goal,
        now >= deadline,
        pledged_by(pledges, who) > 0,
    ensures
        ({
            let failed = CampaignModel::fresh(creator, goal, deadline, asset).after_pledges(
                pledges,
            ).resolve(now);
            &&& failed.status == CampaignStatus::Failed
            &&& failed.refund(who) is Ok
            &&& failed.refund(who).unwrap().1.transfer.recipient == who
            &&& failed.refund(who).unwrap().1.transfer.amount == pledged_by(pledges, who)
            &&& failed.refund(who).unwrap().0.held(who) == 0
        }),
{
    lemma_contributions_add_up(creator, goal, deadline, asset, pledges);
    let booked = CampaignModel::fresh(creator, goal, deadline, asset).after_pledges(pledges);
    lemma_terms_are_fixed_by_pledges(CampaignModel::fresh(creator, goal, deadline, asset), pledges);
    assert(booked.held(who) == pledged_by(pledges, who));
    lemma_resolution_keeps_wf(booked, now);
    lemma_refund_accepted(booked.resolve(now), who);
}

/// A campaign that reaches its goal pays its creator all that was pledged. Of
/// a new campaign that has booked a series of pledges that reach its goal: it
/// is successful, and a withdrawal pays the creator the sum of the pledges.
pub proof fn lemma_successful_campaign_pays_in_full(
    creator: Seq<char>,
    goal: int,
    deadline: int,
    asset: Option<Seq<char>>,
    pledges: Seq<Pledge>,
)
    requires
        goal > 0,
        bookable(pledges, deadline),
        pledged(pledges) >= goal,
    ensures
        ({
            let funded = CampaignModel::fresh(creator, goal, deadline, asset).after_pledges(
                pledges,
            );
            &&& funded.status == CampaignStatus::Successful
            &&& funded.withdraw(creator) is Ok
            &&& funded.withdraw(creator).unwrap().1.transfer.recipient == creator
            &&& funded.withdraw(creator).unwrap().1.transfer.amount == pledged(pledges)
            &&& funded.withdraw(creator).unwrap().0.total == 0
        }),
{
    lemma_contributions_add_up(creator, goal, deadline, asset, pledges);
    lemma_terms_are_fixed_by_pledges(CampaignModel::fresh(creator, goal, deadline, asset), pledges);
}

/// The invariant holds after every operation, accepted or refused.
pub proof fn lemma_invariant_is_kept(c: CampaignModel, op: Operation)
    requires
        c.wf(),
    ensures
        c.after(op).wf(),
{
    match op {
        Operation::Contribute { now, who, amount } => {
            if c.contribute(now, who, amount) is Ok {
                lemma_contribute_accepted(c, now, who, amount);
            }
        },
        Operation::Withdraw { who } => {
            if c.withdraw(who) is Ok {
                lemma_withdraw_accepted(c, who);
            }
        },
        Operation::Refund { who } => {
            if c.refund(who) is Ok {
                lemma_refund_accepted(c, who);
            }
        },
        Operation::CheckStatus { now } => {
            lemma_resolution_keeps_wf(c, now);
        },
        Operation::Finalize { now } => {
            lemma_resolution_keeps_wf(c, now);
        },
    }
}

/// Whatever is done to a campaign, in whatever order: the invariant holds,
/// the creator, the goal, the deadline and the asset stay what they were, and
/// a campaign that had left `Active` keeps its status, so that none ever
/// becomes active again.
pub proof fn lemma_invariants_hold_throughout(c: CampaignModel, ops: Seq<Operation>)
    requires
        c.wf(),
    ensures
        c.after_all(ops).wf(),
        c.after_all(ops).creator == c.creator,
        c.after_all(ops).goal == c.goal,
        c.after_all(ops).deadline == c.deadline,
        c.after_all(ops).asset == c.asset,
        c.status.is_terminal() ==> c.after_all(ops).status == c.status,
    decreases ops.len(),
{
    if ops.len() > 0 {
        lemma_invariants_hold_throughout(c, ops.drop_last());
        lemma_invariant_is_kept(c.after_all(ops.drop_last()), ops.last());
        lemma_status_is_terminal(c.after_all(ops.drop_last()), ops.last());
    }
}

/// No operation changes the creator, the goal, the deadline or the asset.
pub proof fn lemma_terms_are_fixed(c: CampaignModel, op: Operation)
    ensures
        c.after(op).creator == c.creator,
        c.after(op).goal == c.goal,
        c.after(op).deadline == c.deadline,
        c.after(op).asset == c.asset,
{
}

/// A campaign that has left `Active` keeps its status under every operation:
/// in particular it never becomes active again.
pub proof fn lemma_status_is_terminal(c: CampaignModel, op: Operation)
    ensures
        c.status.is_terminal() ==> c.after(op).status == c.status,
{
}

/// A campaign becomes successful only with its goal met: by a contribution
/// that takes the funds to the goal, or at its resolution with the funds at
/// the goal.
pub proof fn lemma_success_needs_goal(c: CampaignModel, op: Operation)
    requires
        c.status != CampaignStatus::Successful,
        c.after(op).status == CampaignStatus::Successful,
    ensures
        c.after(op).total >= c.goal,
        c.status == CampaignStatus::Active,
        op is Contribute || op is CheckStatus || op is Finalize,
{
}

/// A campaign fails only by its resolution from the deadline on, below its
/// goal.
pub proof fn lemma_failure_needs_deadline(c: CampaignModel, op: Operation)
    requires
        c.status != CampaignStatus::Failed,
        c.after(op).status == CampaignStatus::Failed,
    ensures
        c.status == CampaignStatus::Active,
        c.total < c.goal,
        op matches Operation::CheckStatus { now } ==> now >= c.deadline,
        op matches Operation::Finalize { now } ==> now >= c.deadline,
        op is CheckStatus || op is Finalize,
{
}

/// Funds are conserved: what is in custody after an operation is what was
/// there before, plus what the operation took in, less what it released.
/// Nothing is released but to the creator of a successful campaign or to a
/// contributor of a failed one, and no more than custody holds.
pub proof fn lemma_funds_are_conserved(c: CampaignModel, op: Operation)
    requires
        c.wf(),
    ensures
        c.after(op).total == c.total + c.paid_in(op) - c.paid_out(op),
        0 <= c.paid_in(op),
        0 <= c.paid_out(op) <= c.total,
        c.paid_out(op) > 0 ==> (op matches Operation::Withdraw { who } && who == c.creator
            && c.status == CampaignStatus::Successful) || (op matches Operation::Refund { who }
            && c.status == CampaignStatus::Failed && c.paid_out(op) == c.held(who)),
{
    match op {
        Operation::Withdraw { who } => {
            if c.withdraw(who) is Ok {
                lemma_withdraw_accepted(c, who);
            }
        },
        Operation::Refund { who } => {
            if c.refund(who) is Ok {
                lemma_refund_accepted(c, who);
            }
        },
        _ => {},
    }
}

/// No operation of `ops` is a contribution.
pub open spec fn without_contributions(ops: Seq<Operation>) -> bool {
    forall|i: int| 0 <= i < ops.len() ==> !(#[trigger] ops[i] is Contribute)
}

/// No operation of `ops` is a contribution by `who`.
pub open spec fn without_contributions_by(ops: Seq<Operation>, who: Seq<char>) -> bool {
    forall|i: int|
        0 <= i < ops.len() ==> !(#[trigger] ops[i] matches Operation::Contribute {
            who: contributor,
            ..
        } && contributor == who)
}

/// The creator of a successful campaign withdraws exactly once: the first
/// withdrawal pays the creator all funds in custody, and a second one is
/// refused with `NothingToWithdraw`, whatever is done in between, unless new
/// contributions have come in.
pub proof fn lemma_withdraw_once(c: CampaignModel, between: Seq<Operation>)
    requires
        c.wf(),
        c.status == CampaignStatus::Successful,
        c.total > 0,
        without_contributions(between),
    ensures
        c.withdraw(c.creator) is Ok,
        c.withdraw(c.creator).unwrap().1.transfer.recipient == c.creator,
        c.withdraw(c.creator).unwrap().1.transfer.amount == c.total,
        c.withdraw(c.creator).unwrap().0.total == 0,
        c.withdraw(c.creator).unwrap().0.after_all(between).withdraw(c.creator) == Err::<
            (CampaignModel, SettlementModel),
            CampaignError,
        >(CampaignError::NothingToWithdraw),
{
    let paid = c.withdraw(c.creator).unwrap().0;
    lemma_withdraw_accepted(c, c.creator);
    lemma_custody_stays_empty(paid, between);
    lemma_invariants_hold_throughout(paid, between);
}

/// Without a contribution an empty custody stays empty.
pub proof fn lemma_custody_stays_empty(c: CampaignModel, ops: Seq<Operation>)
    requires
        c.wf(),
        c.total == 0,
        without_contributions(ops),
    ensures
        c.after_all(ops).total == 0,
    decreases ops.len(),
{
    if ops.len() > 0 {
        let earlier = ops.drop_last();
        assert(without_contributions(earlier)) by {
            assert forall|i: int| 0 <= i < earlier.len() implies !(#[trigger] earlier[i]
                is Contribute) by {
                assert(earlier[i] == ops[i]);
            }
        }
        lemma_custody_stays_empty(c, earlier);
        lemma_invariants_hold_throughout(c, earlier);
        assert(ops.last() == ops[ops.len() - 1]);
        lemma_funds_are_conserved(c.after_all(earlier), ops.last());
    }
}

/// A contributor of a failed campaign is refunded exactly once: the first
/// refund pays them what the ledger holds for them, and a second one is
/// refused with `NoContribution`, whatever is done in between, unless they
/// have contributed anew.
pub proof fn lemma_refund_once(c: CampaignModel, who: Seq<char>, between: Seq<Operation>)
    requires
        c.wf(),
        c.status == CampaignStatus::Failed,
        c.held(who) > 0,
        without_contributions_by(between, who),
    ensures
        c.refund(who) is Ok,
        c.refund(who).unwrap().1.transfer.recipient == who,
        c.refund(who).unwrap().1.transfer.amount == c.held(who),
        c.refund(who).unwrap().0.total == c.total - c.held(who),
        c.refund(who).unwrap().0.after_all(between).refund(who) == Err::<
            (CampaignModel, SettlementModel),
            CampaignError,
        >(CampaignError::NoContribution),
{
    let paid = c.refund(who).unwrap().0;
    lemma_refund_accepted(c, who);
    lemma_entry_stays_empty(paid, who, between);
    lemma_invariants_hold_throughout(paid, between);
}

/// Without a contribution of theirs, an account that holds nothing keeps
/// holding nothing.
pub proof fn lemma_entry_stays_empty(c: CampaignModel, who: Seq<char>, ops: Seq<Operation>)
    requires
        c.held(who) <= 0,
        without_contributions_by(ops, who),
    ensures
        c.after_all(ops).held(who) <= 0,
    decreases ops.len(),
{
    if ops.len() > 0 {
        let earlier = ops.drop_last();
        assert(without_contributions_by(earlier, who)) by {
            assert forall|i: int| 0 <= i < earlier.len() implies !(#[trigger] earlier[i]
                matches Operation::Contribute { who: contributor, .. } && contributor == who) by {
                assert(earlier[i] == ops[i]);
            }
        }
        lemma_entry_stays_empty(c, who, earlier);
        assert(ops.last() == ops[ops.len() - 1]);
    }
}

/// A campaign pays out one way only. From a successful campaign no refund is
/// ever paid, from a failed one no withdrawal, and from an expired one
/// neither, whatever has been done to the campaign in between.
pub proof fn lemma_one_way_out(c: CampaignModel, ops: Seq<Operation>, who: Seq<char>)
    requires
        c.wf(),
    ensures
        c.status == CampaignStatus::Successful ==> c.after_all(ops).refund(who) is Err,
        c.status == CampaignStatus::Failed ==> c.after_all(ops).withdraw(who) is Err,
        c.status == CampaignStatus::Expired ==> c.after_all(ops).refund(who) is Err
            && c.after_all(ops).withdraw(who) is Err,
{
    lemma_invariants_hold_throughout(c, ops);
}

/// The status is stable once the deadline has passed: after a look at the
/// status from the deadline on the campaign is no longer active, and whatever
/// is done to it afterwards, any further look finds the same status.
pub proof fn lemma_status_is_stable(
    c: CampaignModel,
    first: int,
    between: Seq<Operation>,
    later: int,
)
    requires
        c.wf(),
        first >= c.deadline,
    ensures
        c.resolve(first).status.is_terminal(),
        c.resolve(first).resolve(later) == c.resolve(first),
        c.resolve(first).after_all(between).resolve(later).status == c.resolve(first).status,
{
    lemma_resolution_keeps_wf(c, first);
    lemma_invariants_hold_throughout(c.resolve(first), between);
}

/// Resolving twice at the same time is resolving once, and so is closing.
pub proof fn lemma_resolve_is_idempotent(c: CampaignModel, now: int)
    ensures
        c.resolve(now).resolve(now) == c.resolve(now),
        c.finalize(now).finalize(now) == c.finalize(now),
{
}

} // verus!
