//! End-to-end tests of the escrow state machine against the host-ledger
//! model: the funding/withdraw/refund scenarios, every error kind, value
//! conservation, and the chosen refund behaviour (a refund deliberately
//! does not decrement `current_amount`; see `refund_keeps_current_amount`).

use crowdfunding::errors::ErrorCode;
use crowdfunding::errors::LedgerError;
use crowdfunding::ledger::Ledger;
use crowdfunding::state::Campaign;
use crowdfunding::state::Contribution;

/// Accounts: 0 = creator (empty), 1 to 3 = contributors.
fn fresh_ledger() -> Ledger {
    Ledger::new(vec![0, 600, 500, 100], 0).expect("balances fit")
}

fn total_value(l: &Ledger) -> u128 {
    l.accounts.iter().map(|b| *b as u128).sum::<u128>()
        + l.escrows.iter().map(|b| *b as u128).sum::<u128>()
}

fn create_default(l: &mut Ledger) -> usize {
    l.create_campaign("gadget".to_string(), "a gadget".to_string(), 1000, 10, 0)
        .expect("creation succeeds")
}

#[test]
fn scenario_goal_met_withdraw() {
    let mut l = fresh_ledger();
    let id = create_default(&mut l);
    l.advance_time(1);
    assert_eq!(l.fund_campaign(id, 1, 600), Ok(()));
    l.advance_time(2);
    assert_eq!(l.fund_campaign(id, 2, 500), Ok(()));
    assert_eq!(l.campaigns[id].current_amount, 1100);
    assert_eq!(l.escrows[id], 1100);
    l.advance_time(3);
    assert_eq!(l.withdraw_funds(id, 0), Ok(()));
    assert_eq!(l.accounts[0], 1100);
    assert_eq!(l.campaigns[id].current_amount, 0);
    assert!(!l.campaigns[id].is_active);
    assert_eq!(l.escrows[id], 0);
}

#[test]
fn scenario_goal_unmet_refund() {
    let mut l = fresh_ledger();
    let id = create_default(&mut l);
    l.advance_time(1);
    assert_eq!(l.fund_campaign(id, 1, 300), Ok(()));
    l.advance_time(5);
    assert_eq!(
        l.withdraw_funds(id, 0),
        Err(LedgerError::Code(ErrorCode::WithdrawalNotAllowed))
    );
    l.advance_time(11);
    assert_eq!(l.refund_contribution(id, 0, 1), Ok(()));
    assert_eq!(l.accounts[1], 600);
    assert!(l.contributions.is_empty());
}

#[test]
fn scenario_fund_after_deadline() {
    let mut l = fresh_ledger();
    let id = create_default(&mut l);
    l.advance_time(1);
    assert_eq!(l.fund_campaign(id, 1, 300), Ok(()));
    l.advance_time(11);
    assert_eq!(
        l.fund_campaign(id, 2, 100),
        Err(LedgerError::Code(ErrorCode::CampaignExpired))
    );
}

#[test]
fn scenario_second_withdraw_rejected() {
    let mut l = fresh_ledger();
    let id = create_default(&mut l);
    l.advance_time(1);
    assert_eq!(l.fund_campaign(id, 1, 600), Ok(()));
    assert_eq!(l.fund_campaign(id, 2, 400), Ok(()));
    assert_eq!(l.withdraw_funds(id, 0), Ok(()));
    assert_eq!(
        l.withdraw_funds(id, 0),
        Err(LedgerError::Code(ErrorCode::CampaignNotActive))
    );
}

#[test]
fn conservation_across_operations() {
    let mut l = fresh_ledger();
    let start = total_value(&l);
    let id = create_default(&mut l);
    assert_eq!(total_value(&l), start);
    l.advance_time(1);
    assert_eq!(l.fund_campaign(id, 1, 250), Ok(()));
    assert_eq!(total_value(&l), start);
    assert_eq!(l.fund_campaign(id, 2, 500), Ok(()));
    assert_eq!(total_value(&l), start);
    l.advance_time(11);
    assert_eq!(l.refund_contribution(id, 0, 1), Ok(()));
    assert_eq!(total_value(&l), start);
    assert_eq!(l.withdraw_funds(id, 0), Err(LedgerError::InsufficientBalance));
    assert_eq!(total_value(&l), start);
}

#[test]
fn duplicate_funding_rejected() {
    let mut l = fresh_ledger();
    let id = create_default(&mut l);
    l.advance_time(1);
    assert_eq!(l.fund_campaign(id, 1, 200), Ok(()));
    let before = l.campaigns[id].current_amount;
    assert_eq!(l.fund_campaign(id, 1, 50), Err(LedgerError::DuplicateKey));
    assert_eq!(l.campaigns[id].current_amount, before);
    assert_eq!(l.accounts[1], 400);
}

#[test]
fn duplicate_campaign_key_rejected() {
    let mut l = fresh_ledger();
    create_default(&mut l);
    assert_eq!(
        l.create_campaign("gadget".to_string(), "again".to_string(), 5, 9, 0),
        Err(LedgerError::DuplicateKey)
    );
    // Same title under another creator is a different storage key.
    assert!(l.create_campaign("gadget".to_string(), "again".to_string(), 5, 9, 1).is_ok());
}

#[test]
fn withdraw_by_non_creator_rejected() {
    let mut l = fresh_ledger();
    let id = create_default(&mut l);
    l.advance_time(1);
    assert_eq!(l.fund_campaign(id, 1, 600), Ok(()));
    assert_eq!(l.fund_campaign(id, 2, 400), Ok(()));
    l.advance_time(11);
    // Goal met and deadline passed: authorization still decides first.
    assert_eq!(
        l.withdraw_funds(id, 2),
        Err(LedgerError::Code(ErrorCode::UnauthorizedWithdrawal))
    );
}

#[test]
fn refund_by_non_contributor_rejected() {
    let mut l = fresh_ledger();
    let id = create_default(&mut l);
    l.advance_time(1);
    assert_eq!(l.fund_campaign(id, 1, 300), Ok(()));
    l.advance_time(11);
    assert_eq!(
        l.refund_contribution(id, 0, 2),
        Err(LedgerError::Code(ErrorCode::UnauthorizedRefund))
    );
    assert_eq!(l.contributions.len(), 1);
}

#[test]
fn refund_before_deadline_rejected() {
    let mut l = fresh_ledger();
    let id = create_default(&mut l);
    l.advance_time(1);
    assert_eq!(l.fund_campaign(id, 1, 300), Ok(()));
    assert_eq!(
        l.refund_contribution(id, 0, 1),
        Err(LedgerError::Code(ErrorCode::RefundNotAllowed))
    );
}

#[test]
fn refund_after_goal_met_rejected() {
    let mut l = fresh_ledger();
    let id = create_default(&mut l);
    l.advance_time(1);
    assert_eq!(l.fund_campaign(id, 1, 600), Ok(()));
    assert_eq!(l.fund_campaign(id, 2, 400), Ok(()));
    l.advance_time(11);
    assert_eq!(
        l.refund_contribution(id, 0, 1),
        Err(LedgerError::Code(ErrorCode::RefundNotAllowed))
    );
}

/// The chosen behaviour: a refund moves value out of escrow but deliberately
/// does not decrement the campaign's `current_amount`, so the record then
/// overstates the escrow. A later withdrawal is stopped by the escrow
/// balance check rather than moving value that is no longer there.
#[test]
fn refund_keeps_current_amount() {
    let mut l = fresh_ledger();
    let id = create_default(&mut l);
    l.advance_time(1);
    assert_eq!(l.fund_campaign(id, 1, 300), Ok(()));
    l.advance_time(11);
    assert_eq!(l.refund_contribution(id, 0, 1), Ok(()));
    assert_eq!(l.campaigns[id].current_amount, 300);
    assert_eq!(l.escrows[id], 0);
    assert_eq!(l.withdraw_funds(id, 0), Err(LedgerError::InsufficientBalance));
}

#[test]
fn create_validation_errors() {
    let mut l = fresh_ledger();
    let long_title: String = "t".repeat(101);
    assert_eq!(
        l.create_campaign(long_title, "d".to_string(), 10, 5, 0),
        Err(LedgerError::Code(ErrorCode::TitleTooLong))
    );
    let long_desc: String = "d".repeat(501);
    assert_eq!(
        l.create_campaign("t".to_string(), long_desc, 10, 5, 0),
        Err(LedgerError::Code(ErrorCode::DescriptionTooLong))
    );
    assert_eq!(
        l.create_campaign("t".to_string(), "d".to_string(), 0, 5, 0),
        Err(LedgerError::Code(ErrorCode::InvalidTargetAmount))
    );
    assert_eq!(
        l.create_campaign("t".to_string(), "d".to_string(), 10, 0, 0),
        Err(LedgerError::Code(ErrorCode::InvalidDeadline))
    );
    assert!(l.campaigns.is_empty());
}

#[test]
fn create_length_bounds_are_inclusive() {
    let mut l = fresh_ledger();
    let title: String = "t".repeat(100);
    let desc: String = "d".repeat(500);
    assert!(l.create_campaign(title, desc, 1, 1, 0).is_ok());
}

#[test]
fn title_length_counts_characters() {
    let mut l = fresh_ledger();
    let title: String = "é".repeat(100);
    assert!(l.create_campaign(title, String::new(), 1, 1, 0).is_ok());
    let title: String = "é".repeat(101);
    assert_eq!(
        l.create_campaign(title, String::new(), 1, 1, 0),
        Err(LedgerError::Code(ErrorCode::TitleTooLong))
    );
}

#[test]
fn fund_validation_errors() {
    let mut l = fresh_ledger();
    let id = create_default(&mut l);
    l.advance_time(1);
    assert_eq!(
        l.fund_campaign(id, 1, 0),
        Err(LedgerError::Code(ErrorCode::InvalidAmount))
    );
    assert_eq!(l.fund_campaign(id, 1, 601), Err(LedgerError::InsufficientBalance));
    assert_eq!(l.accounts[1], 600);
    assert_eq!(l.fund_campaign(id, 1, 600), Ok(()));
    assert_eq!(l.fund_campaign(id, 2, 400), Ok(()));
    assert_eq!(l.withdraw_funds(id, 0), Ok(()));
    assert_eq!(
        l.fund_campaign(id, 3, 1),
        Err(LedgerError::Code(ErrorCode::CampaignNotActive))
    );
}

#[test]
fn fund_exactly_at_deadline_rejected() {
    let mut l = fresh_ledger();
    let id = create_default(&mut l);
    l.advance_time(10);
    assert_eq!(
        l.fund_campaign(id, 1, 100),
        Err(LedgerError::Code(ErrorCode::CampaignExpired))
    );
}

#[test]
fn withdraw_exactly_at_deadline_allowed() {
    let mut l = fresh_ledger();
    let id = create_default(&mut l);
    l.advance_time(1);
    assert_eq!(l.fund_campaign(id, 1, 300), Ok(()));
    l.advance_time(10);
    assert_eq!(l.withdraw_funds(id, 0), Ok(()));
    assert_eq!(l.accounts[0], 300);
}

#[test]
fn clock_is_monotonic() {
    let mut l = fresh_ledger();
    l.advance_time(9);
    l.advance_time(4);
    assert_eq!(l.now, 9);
}

#[test]
fn ledger_new_rejects_unrepresentable_total() {
    assert!(Ledger::new(vec![u64::MAX, 1], 0).is_none());
    assert!(Ledger::new(vec![u64::MAX, 0], 0).is_some());
}

#[test]
fn record_space_sizes() {
    assert_eq!(Campaign::space("abc"), 584);
    assert_eq!(Campaign::space(""), 581);
    assert_eq!(Contribution::SPACE, 88);
}

#[test]
fn contribution_record_fields() {
    let mut l = fresh_ledger();
    let id = create_default(&mut l);
    l.advance_time(2);
    assert_eq!(l.fund_campaign(id, 1, 250), Ok(()));
    let ct = l.contributions[0];
    assert_eq!(ct.contributor, 1);
    assert_eq!(ct.campaign, id);
    assert_eq!(ct.amount, 250);
    assert_eq!(ct.timestamp, 2);
}
