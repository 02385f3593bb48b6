use crowdfund::{
    Campaign, CampaignError, CampaignEvent, CampaignStatus, Crowdfunding, Settlement, Transfer,
};
use soroban_sdk::testutils::{Address as _, Ledger as _};
use soroban_sdk::{Address, Env};

/// The address of a newly generated account, as text.
fn new_account(env: &Env) -> String {
    Address::generate(env).to_string().to_string()
}

const T: u64 = 1_700_000_000;

fn campaign_of(env: &Env, creator: &str, goal: i128) -> Campaign {
    Crowdfunding::create_campaign(env.clone(), creator, goal, T + 3600, None)
}

#[test]
fn failed_campaign_refunds_its_contributor() {
    let env = Env::default();
    let mut campaign = campaign_of(&env, "creator", 1000);

    assert!(Crowdfunding::contribute_at(&mut campaign, T + 10, "A", 100).is_ok());
    assert_eq!(campaign.total_contributed(), 100);
    assert_eq!(campaign.status(), CampaignStatus::Active);

    assert_eq!(Crowdfunding::check_status_at(&mut campaign, T + 3601), CampaignStatus::Failed);

    let paid = Crowdfunding::refund(&mut campaign, "A");
    assert_eq!(
        paid,
        Ok(Settlement {
            transfer: Transfer { recipient: "A".to_string(), amount: 100, asset: None },
            event: CampaignEvent::RefundIssued { contributor: "A".to_string(), amount: 100 },
        })
    );
    assert_eq!(campaign.contribution_of("A"), Some(0));
    assert_eq!(campaign.total_contributed(), 0);
}

#[test]
fn successful_campaign_pays_its_creator_once() {
    let env = Env::default();
    let mut campaign = campaign_of(&env, "creator", 1000);

    assert!(Crowdfunding::contribute_at(&mut campaign, T + 10, "A", 600).is_ok());
    assert_eq!(campaign.status(), CampaignStatus::Active);
    assert!(Crowdfunding::contribute_at(&mut campaign, T + 20, "B", 500).is_ok());
    assert_eq!(campaign.total_contributed(), 1100);
    assert_eq!(campaign.status(), CampaignStatus::Successful);

    let paid = Crowdfunding::withdraw(&mut campaign, "creator");
    assert_eq!(
        paid,
        Ok(Settlement {
            transfer: Transfer { recipient: "creator".to_string(), amount: 1100, asset: None },
            event: CampaignEvent::FundsWithdrawn { creator: "creator".to_string(), amount: 1100 },
        })
    );
    assert_eq!(campaign.total_contributed(), 0);

    let again = Crowdfunding::withdraw(&mut campaign, "creator");
    assert_eq!(again, Err(CampaignError::NothingToWithdraw));
    assert_eq!(campaign.total_contributed(), 0);
    assert_eq!(campaign.status(), CampaignStatus::Successful);
}

#[test]
fn contributions_add_up_per_contributor() {
    let env = Env::default();
    let mut campaign = campaign_of(&env, "creator", 1000);

    let pledges: [(&str, i128); 5] = [("A", 100), ("B", 250), ("A", 300), ("C", 349), ("B", 1)];
    let mut sum: i128 = 0;
    for (who, amount) in pledges {
        assert!(Crowdfunding::contribute_at(&mut campaign, T, who, amount).is_ok());
        sum += amount;
        assert_eq!(campaign.total_contributed(), sum);
        let expected =
            if sum >= 1000 { CampaignStatus::Successful } else { CampaignStatus::Active };
        assert_eq!(campaign.status(), expected);
    }
    assert_eq!(sum, 1000);
    assert_eq!(campaign.contribution_of("A"), Some(400));
    assert_eq!(campaign.contribution_of("B"), Some(251));
    assert_eq!(campaign.contribution_of("C"), Some(349));
    assert_eq!(campaign.contribution_of("D"), None);

    // More may come in before the deadline; the campaign stays successful.
    assert!(Crowdfunding::contribute_at(&mut campaign, T + 3599, "D", 7).is_ok());
    assert_eq!(campaign.total_contributed(), 1007);
    assert_eq!(campaign.status(), CampaignStatus::Successful);
}

#[test]
fn goal_is_reached_at_exactly_the_goal() {
    let env = Env::default();
    let mut campaign = campaign_of(&env, "creator", 1000);
    assert!(Crowdfunding::contribute_at(&mut campaign, T, "A", 999).is_ok());
    assert_eq!(campaign.status(), CampaignStatus::Active);
    assert!(Crowdfunding::contribute_at(&mut campaign, T, "A", 1).is_ok());
    assert_eq!(campaign.status(), CampaignStatus::Successful);
}

#[test]
fn contribution_from_the_deadline_on_is_refused() {
    let env = Env::default();
    let mut campaign = campaign_of(&env, "creator", 1000);
    assert!(Crowdfunding::contribute_at(&mut campaign, T + 3599, "A", 100).is_ok());

    for now in [T + 3600, T + 3601, u64::MAX] {
        for amount in [50, 0, -5] {
            let refused = Crowdfunding::contribute_at(&mut campaign, now, "A", amount);
            assert_eq!(refused, Err(CampaignError::CampaignEnded));
        }
    }
    assert_eq!(campaign.total_contributed(), 100);
    assert_eq!(campaign.contribution_of("A"), Some(100));
    assert_eq!(campaign.status(), CampaignStatus::Active);
}

#[test]
fn contribution_that_is_not_positive_is_refused() {
    let env = Env::default();
    let mut campaign = campaign_of(&env, "creator", 1000);
    for amount in [0, -1, i128::MIN] {
        let refused = Crowdfunding::contribute_at(&mut campaign, T, "A", amount);
        assert_eq!(refused, Err(CampaignError::InvalidAmount));
    }
    assert_eq!(campaign.total_contributed(), 0);
    assert_eq!(campaign.contribution_of("A"), None);
    assert_eq!(campaign.status(), CampaignStatus::Active);
}

#[test]
fn contribution_past_the_largest_amount_is_refused() {
    let env = Env::default();
    let mut campaign = campaign_of(&env, "creator", i128::MAX);
    assert!(Crowdfunding::contribute_at(&mut campaign, T, "A", i128::MAX - 1).is_ok());
    assert_eq!(campaign.status(), CampaignStatus::Active);

    let refused = Crowdfunding::contribute_at(&mut campaign, T, "B", 2);
    assert_eq!(refused, Err(CampaignError::Overflow));
    assert_eq!(campaign.total_contributed(), i128::MAX - 1);
    assert_eq!(campaign.contribution_of("B"), None);

    assert!(Crowdfunding::contribute_at(&mut campaign, T, "B", 1).is_ok());
    assert_eq!(campaign.total_contributed(), i128::MAX);
    assert_eq!(campaign.status(), CampaignStatus::Successful);

    // After the withdrawal custody is empty, but the entry of A is not.
    assert!(Crowdfunding::withdraw(&mut campaign, "creator").is_ok());
    let refused = Crowdfunding::contribute_at(&mut campaign, T, "A", 2);
    assert_eq!(refused, Err(CampaignError::Overflow));
    assert_eq!(campaign.total_contributed(), 0);
    assert_eq!(campaign.contribution_of("A"), Some(i128::MAX - 1));
}

#[test]
fn withdrawal_is_for_the_creator_of_a_successful_campaign() {
    let env = Env::default();
    let mut campaign = campaign_of(&env, "creator", 1000);
    assert!(Crowdfunding::contribute_at(&mut campaign, T, "A", 400).is_ok());

    assert_eq!(Crowdfunding::withdraw(&mut campaign, "A"), Err(CampaignError::Unauthorized));
    assert_eq!(Crowdfunding::withdraw(&mut campaign, ""), Err(CampaignError::Unauthorized));
    assert_eq!(Crowdfunding::withdraw(&mut campaign, "creator"), Err(CampaignError::GoalNotMet));

    Crowdfunding::finalize_campaign_at(&mut campaign, T + 3600);
    assert_eq!(campaign.status(), CampaignStatus::Failed);
    assert_eq!(Crowdfunding::withdraw(&mut campaign, "creator"), Err(CampaignError::GoalNotMet));
    assert_eq!(Crowdfunding::withdraw(&mut campaign, "A"), Err(CampaignError::Unauthorized));
    assert_eq!(campaign.total_contributed(), 400);
}

#[test]
fn withdrawal_is_possible_before_the_deadline() {
    let env = Env::default();
    let asset = new_account(&env);
    let mut campaign =
        Crowdfunding::create_campaign(env.clone(), "creator", 500, T + 3600, Some(asset.clone()));
    assert_eq!(campaign.asset(), Some(asset.as_str()));
    assert!(Crowdfunding::contribute_at(&mut campaign, T, "creator", 500).is_ok());

    let paid = Crowdfunding::withdraw(&mut campaign, "creator").unwrap();
    assert_eq!(paid.transfer.asset, Some(asset));
    assert_eq!(paid.transfer.amount, 500);

    // What comes in after a withdrawal can be withdrawn in its turn.
    assert!(Crowdfunding::contribute_at(&mut campaign, T + 1, "A", 20).is_ok());
    assert_eq!(campaign.total_contributed(), 20);
    assert_eq!(campaign.status(), CampaignStatus::Successful);
    let paid = Crowdfunding::withdraw(&mut campaign, "creator").unwrap();
    assert_eq!(paid.transfer.amount, 20);
    assert_eq!(campaign.contribution_of("creator"), Some(500));
}

#[test]
fn refund_is_for_contributors_of_a_failed_campaign() {
    let env = Env::default();
    let asset = new_account(&env);
    let mut campaign =
        Crowdfunding::create_campaign(env.clone(), "creator", 1000, T + 3600, Some(asset.clone()));
    assert!(Crowdfunding::contribute_at(&mut campaign, T, "A", 100).is_ok());
    assert!(Crowdfunding::contribute_at(&mut campaign, T, "B", 30).is_ok());
    assert!(Crowdfunding::contribute_at(&mut campaign, T, "A", 11).is_ok());

    assert_eq!(Crowdfunding::refund(&mut campaign, "A"), Err(CampaignError::CampaignStillActive));
    assert_eq!(Crowdfunding::refund(&mut campaign, "Z"), Err(CampaignError::CampaignStillActive));

    assert_eq!(Crowdfunding::check_status_at(&mut campaign, T + 3600), CampaignStatus::Failed);
    assert_eq!(Crowdfunding::refund(&mut campaign, "Z"), Err(CampaignError::NoContribution));
    assert_eq!(
        Crowdfunding::refund(&mut campaign, "creator"),
        Err(CampaignError::NoContribution)
    );

    let paid = Crowdfunding::refund(&mut campaign, "A").unwrap();
    assert_eq!(paid.transfer.recipient, "A");
    assert_eq!(paid.transfer.amount, 111);
    assert_eq!(paid.transfer.asset, Some(asset));
    assert_eq!(paid.event, CampaignEvent::RefundIssued { contributor: "A".to_string(), amount: 111 });
    assert_eq!(campaign.total_contributed(), 30);
    assert_eq!(campaign.contribution_of("A"), Some(0));
    assert_eq!(campaign.contribution_of("B"), Some(30));

    assert_eq!(Crowdfunding::refund(&mut campaign, "A"), Err(CampaignError::NoContribution));
    let paid = Crowdfunding::refund(&mut campaign, "B").unwrap();
    assert_eq!(paid.transfer.amount, 30);
    assert_eq!(Crowdfunding::refund(&mut campaign, "A"), Err(CampaignError::NoContribution));
    assert_eq!(Crowdfunding::refund(&mut campaign, "B"), Err(CampaignError::NoContribution));
    assert_eq!(campaign.total_contributed(), 0);
    assert_eq!(campaign.status(), CampaignStatus::Failed);
}

#[test]
fn refund_from_a_successful_campaign_is_refused() {
    let env = Env::default();
    let mut campaign = campaign_of(&env, "creator", 100);
    assert!(Crowdfunding::contribute_at(&mut campaign, T, "A", 100).is_ok());
    assert_eq!(Crowdfunding::refund(&mut campaign, "A"), Err(CampaignError::CampaignSucceeded));
    assert_eq!(Crowdfunding::check_status_at(&mut campaign, T + 4000), CampaignStatus::Successful);
    assert_eq!(Crowdfunding::refund(&mut campaign, "A"), Err(CampaignError::CampaignSucceeded));
    assert_eq!(campaign.total_contributed(), 100);
    assert_eq!(campaign.contribution_of("A"), Some(100));
}

#[test]
fn status_is_stable_after_the_deadline() {
    let env = Env::default();
    let mut campaign = campaign_of(&env, "creator", 1000);
    assert!(Crowdfunding::contribute_at(&mut campaign, T, "A", 999).is_ok());

    assert_eq!(Crowdfunding::check_status_at(&mut campaign, T + 3599), CampaignStatus::Active);
    assert_eq!(campaign.status(), CampaignStatus::Active);
    for now in [T + 3600, T + 3601, T + 100_000, T, 0, u64::MAX] {
        assert_eq!(Crowdfunding::check_status_at(&mut campaign, now), CampaignStatus::Failed);
        assert_eq!(campaign.status(), CampaignStatus::Failed);
        assert_eq!(campaign.total_contributed(), 999);
    }
    Crowdfunding::finalize_campaign_at(&mut campaign, T);
    assert_eq!(campaign.status(), CampaignStatus::Failed);
}

#[test]
fn finalize_before_the_deadline_expires_an_active_campaign() {
    let env = Env::default();
    let mut campaign = campaign_of(&env, "creator", 1000);
    assert!(Crowdfunding::contribute_at(&mut campaign, T, "A", 10).is_ok());

    Crowdfunding::finalize_campaign_at(&mut campaign, T + 3599);
    assert_eq!(campaign.status(), CampaignStatus::Expired);

    // Expired is terminal.
    assert_eq!(Crowdfunding::check_status_at(&mut campaign, T + 3601), CampaignStatus::Expired);
    Crowdfunding::finalize_campaign_at(&mut campaign, T + 3601);
    assert_eq!(campaign.status(), CampaignStatus::Expired);
    assert_eq!(Crowdfunding::refund(&mut campaign, "A"), Err(CampaignError::CampaignSucceeded));
    assert_eq!(Crowdfunding::withdraw(&mut campaign, "creator"), Err(CampaignError::GoalNotMet));

    // It still books what comes in before the deadline, and stays expired.
    assert!(Crowdfunding::contribute_at(&mut campaign, T + 1, "B", 2000).is_ok());
    assert_eq!(campaign.total_contributed(), 2010);
    assert_eq!(campaign.status(), CampaignStatus::Expired);
}

#[test]
fn finalize_leaves_a_successful_campaign_successful() {
    let env = Env::default();
    let mut campaign = campaign_of(&env, "creator", 10);
    assert!(Crowdfunding::contribute_at(&mut campaign, T, "A", 10).is_ok());
    Crowdfunding::finalize_campaign_at(&mut campaign, T + 1);
    assert_eq!(campaign.status(), CampaignStatus::Successful);
    assert!(Crowdfunding::withdraw(&mut campaign, "creator").is_ok());
    Crowdfunding::finalize_campaign_at(&mut campaign, T + 3600);
    assert_eq!(campaign.status(), CampaignStatus::Successful);
    assert_eq!(Crowdfunding::check_status_at(&mut campaign, T + 3600), CampaignStatus::Successful);
}

#[test]
fn campaign_with_a_deadline_in_the_past_takes_nothing() {
    let env = Env::default();
    env.ledger().set_timestamp(T);
    let mut campaign = Crowdfunding::create_campaign(env.clone(), "creator", 5, T - 1, None);
    assert_eq!(campaign.status(), CampaignStatus::Active);
    let refused = Crowdfunding::contribute(env.clone(), &mut campaign, "A", 5);
    assert_eq!(refused, Err(CampaignError::CampaignEnded));
    assert_eq!(Crowdfunding::check_status(env.clone(), &mut campaign), CampaignStatus::Failed);
}

#[test]
fn operations_read_the_clock_of_the_host() {
    let env = Env::default();
    env.ledger().set_timestamp(T);
    let mut campaign = campaign_of(&env, "creator", 1000);

    env.ledger().set_timestamp(T + 3599);
    assert!(Crowdfunding::contribute(env.clone(), &mut campaign, "A", 1).is_ok());
    assert_eq!(Crowdfunding::check_status(env.clone(), &mut campaign), CampaignStatus::Active);

    env.ledger().set_timestamp(T + 3600);
    let refused = Crowdfunding::contribute(env.clone(), &mut campaign, "A", 1);
    assert_eq!(refused, Err(CampaignError::CampaignEnded));
    assert_eq!(Crowdfunding::check_status(env.clone(), &mut campaign), CampaignStatus::Failed);
    assert_eq!(campaign.total_contributed(), 1);
}

#[test]
fn finalize_reads_the_clock_of_the_host() {
    let env = Env::default();
    env.ledger().set_timestamp(T);
    let mut early = campaign_of(&env, "creator", 1000);
    let mut late = campaign_of(&env, "creator", 1000);

    Crowdfunding::finalize_campaign(env.clone(), &mut early);
    assert_eq!(early.status(), CampaignStatus::Expired);

    env.ledger().set_timestamp(T + 3600);
    Crowdfunding::finalize_campaign(env.clone(), &mut late);
    assert_eq!(late.status(), CampaignStatus::Failed);
}

#[test]
fn accounts_are_told_apart_by_their_whole_name() {
    let env = Env::default();
    let mut campaign = campaign_of(&env, "creator", 1000);
    assert!(Crowdfunding::contribute_at(&mut campaign, T, "A", 1).is_ok());
    assert!(Crowdfunding::contribute_at(&mut campaign, T, "a", 2).is_ok());
    assert!(Crowdfunding::contribute_at(&mut campaign, T, "AA", 4).is_ok());
    assert!(Crowdfunding::contribute_at(&mut campaign, T, "", 8).is_ok());
    assert!(Crowdfunding::contribute_at(&mut campaign, T, "\u{e9}", 16).is_ok());
    assert_eq!(campaign.contribution_of("A"), Some(1));
    assert_eq!(campaign.contribution_of("a"), Some(2));
    assert_eq!(campaign.contribution_of("AA"), Some(4));
    assert_eq!(campaign.contribution_of(""), Some(8));
    assert_eq!(campaign.contribution_of("\u{e9}"), Some(16));
    assert_eq!(campaign.contribution_of("e"), None);
    assert_eq!(campaign.total_contributed(), 31);
}

#[test]
fn terms_of_a_campaign_never_change() {
    let env = Env::default();
    let asset = new_account(&env);
    let mut campaign =
        Crowdfunding::create_campaign(env.clone(), "creator", 300, T + 3600, Some(asset.clone()));

    let _ = Crowdfunding::contribute_at(&mut campaign, T, "A", 100);
    let _ = Crowdfunding::withdraw(&mut campaign, "creator");
    let _ = Crowdfunding::refund(&mut campaign, "A");
    let _ = Crowdfunding::check_status_at(&mut campaign, T + 3600);
    let _ = Crowdfunding::refund(&mut campaign, "A");
    Crowdfunding::finalize_campaign_at(&mut campaign, T + 9999);
    let _ = Crowdfunding::contribute_at(&mut campaign, T, "B", 500);

    assert_eq!(campaign.creator(), "creator");
    assert_eq!(campaign.goal(), 300);
    assert_eq!(campaign.deadline(), T + 3600);
    assert_eq!(campaign.asset(), Some(asset.as_str()));
    // A failed campaign stays failed, though the contribution of B is booked.
    assert_eq!(campaign.status(), CampaignStatus::Failed);
    assert_eq!(campaign.total_contributed(), 500);
    assert_eq!(campaign.contribution_of("A"), Some(0));
    assert_eq!(campaign.contribution_of("B"), Some(500));
    let paid = Crowdfunding::refund(&mut campaign, "B").unwrap();
    assert_eq!(paid.transfer.amount, 500);
    assert_eq!(campaign.total_contributed(), 0);
}

#[test]
fn funds_in_custody_follow_what_comes_in_and_goes_out() {
    let env = Env::default();
    let mut campaign = campaign_of(&env, "creator", 1000);
    let mut custody: i128 = 0;

    for (who, amount) in [("A", 250), ("B", 250), ("C", 0), ("A", -3), ("C", 400)] {
        if Crowdfunding::contribute_at(&mut campaign, T + 5, who, amount).is_ok() {
            custody += amount;
        }
        assert_eq!(campaign.total_contributed(), custody);
    }
    assert_eq!(custody, 900);
    assert_eq!(Crowdfunding::check_status_at(&mut campaign, T + 3600), CampaignStatus::Failed);

    for who in ["B", "creator", "A", "B", "C", "A", "D"] {
        if let Ok(paid) = Crowdfunding::refund(&mut campaign, who) {
            assert_eq!(paid.transfer.recipient, who);
            custody -= paid.transfer.amount;
        }
        assert_eq!(campaign.total_contributed(), custody);
    }
    assert_eq!(custody, 0);
}

#[test]
fn creator_may_contribute_to_the_own_campaign() {
    let env = Env::default();
    let creator = new_account(&env);
    let mut campaign = campaign_of(&env, &creator, 50);
    let event = Crowdfunding::contribute_at(&mut campaign, T, &creator, 50);
    assert_eq!(
        event,
        Ok(CampaignEvent::ContributionReceived { contributor: creator.clone(), amount: 50 })
    );
    assert_eq!(campaign.status(), CampaignStatus::Successful);
    let paid = Crowdfunding::withdraw(&mut campaign, &creator).unwrap();
    assert_eq!(paid.transfer.recipient, creator);
    assert_eq!(paid.transfer.amount, 50);
    assert_eq!(paid.event, CampaignEvent::FundsWithdrawn { creator, amount: 50 });
}
