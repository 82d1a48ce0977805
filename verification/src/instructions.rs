//! The four operations of the escrow state machine.
//!
//! Each operation works on the records it names and on the plain balances
//! involved in its one value transfer; the host environment (modelled by
//! [`crate::ledger`]) resolves identifiers to records and balances, and
//! supplies the current time from its clock. Every precondition is checked
//! before any mutation: an operation that fails leaves every record and
//! balance exactly as it found them.

use vstd::prelude::*;

use crate::errors::ErrorCode;
use crate::errors::LedgerError;
use crate::state::Campaign;
use crate::state::Contribution;

verus! {

/// Create's preconditions: metadata within bounds, a positive goal, a
/// deadline strictly in the future.
pub open spec fn create_allowed(
    title: Seq<char>,
    description: Seq<char>,
    target_amount: u64,
    deadline: i64,
    now: i64,
) -> bool {
    &&& title.len() <= 100
    &&& description.len() <= 500
    &&& target_amount > 0
    &&& deadline > now
}

/// The error Create reports: the first failing check, in the order the
/// checks are made.
pub open spec fn create_error(
    title: Seq<char>,
    description: Seq<char>,
    target_amount: u64,
    deadline: i64,
    now: i64,
) -> ErrorCode {
    if title.len() > 100 {
        ErrorCode::TitleTooLong
    } else if description.len() > 500 {
        ErrorCode::DescriptionTooLong
    } else if target_amount == 0 {
        ErrorCode::InvalidTargetAmount
    } else {
        ErrorCode::InvalidDeadline
    }
}

/// Fund's preconditions: an active campaign, before the deadline, a positive
/// amount that the contributor's balance covers.
pub open spec fn fund_allowed(c: Campaign, amount: u64, balance: u64, now: i64) -> bool {
    &&& c.is_active
    &&& now < c.deadline
    &&& amount > 0
    &&& amount <= balance
}

/// The error Fund reports: the first failing check, in the order the checks
/// are made.
pub open spec fn fund_error(c: Campaign, amount: u64, balance: u64, now: i64) -> LedgerError {
    if !c.is_active {
        LedgerError::Code(ErrorCode::CampaignNotActive)
    } else if now >= c.deadline {
        LedgerError::Code(ErrorCode::CampaignExpired)
    } else if amount == 0 {
        LedgerError::Code(ErrorCode::InvalidAmount)
    } else {
        LedgerError::InsufficientBalance
    }
}

/// Withdraw's preconditions: the caller is the creator, the campaign is
/// still active, the release condition holds, and the escrow actually holds
/// the recorded amount.
pub open spec fn withdraw_ok(c: Campaign, escrow: u64, caller: usize, now: i64) -> bool {
    &&& caller == c.creator
    &&& c.is_active
    &&& c.withdraw_allowed(now)
    &&& escrow >= c.current_amount
}

/// The error Withdraw reports: the first failing check, in the order the
/// checks are made.
pub open spec fn withdraw_error(c: Campaign, escrow: u64, caller: usize, now: i64) -> LedgerError {
    if caller != c.creator {
        LedgerError::Code(ErrorCode::UnauthorizedWithdrawal)
    } else if !c.is_active {
        LedgerError::Code(ErrorCode::CampaignNotActive)
    } else if !c.withdraw_allowed(now) {
        LedgerError::Code(ErrorCode::WithdrawalNotAllowed)
    } else {
        LedgerError::InsufficientBalance
    }
}

/// Refund's preconditions: the refund window is open (deadline passed, goal
/// unmet), the caller made this contribution, and the escrow still covers it.
pub open spec fn refund_ok(
    c: Campaign,
    contribution: Contribution,
    escrow: u64,
    caller: usize,
    now: i64,
) -> bool {
    &&& c.refund_window(now)
    &&& contribution.contributor == caller
    &&& escrow >= contribution.amount
}

/// The error Refund reports: the first failing check, in the order the
/// checks are made.
pub open spec fn refund_error(
    c: Campaign,
    contribution: Contribution,
    escrow: u64,
    caller: usize,
    now: i64,
) -> LedgerError {
    if !c.refund_window(now) {
        LedgerError::Code(ErrorCode::RefundNotAllowed)
    } else if contribution.contributor != caller {
        LedgerError::Code(ErrorCode::UnauthorizedRefund)
    } else {
        LedgerError::InsufficientBalance
    }
}

/// Create a campaign record for `creator` at time `now`: validate the
/// metadata, the goal and the deadline, and return the fresh record with
/// nothing funded yet. No balance is involved.
pub fn create_campaign(
    title: String,
    description: String,
    target_amount: u64,
    deadline: i64,
    creator: usize,
    now: i64,
) -> (r: Result<Campaign, ErrorCode>)
    ensures
        r is Ok <==> create_allowed(title@, description@, target_amount, deadline, now),
        r is Ok ==> r->Ok_0 == (Campaign {
            creator,
            title,
            description,
            target_amount,
            current_amount: 0u64,
            deadline,
            created_at: now,
            is_active: true,
        }),
        r is Ok ==> r->Ok_0.wf(),
        r is Err ==> r->Err_0 == create_error(title@, description@, target_amount, deadline, now),
{
    if title.as_str().unicode_len() > 100 {
        return Err(ErrorCode::TitleTooLong);
    }
    if description.as_str().unicode_len() > 500 {
        return Err(ErrorCode::DescriptionTooLong);
    }
    if target_amount == 0 {
        return Err(ErrorCode::InvalidTargetAmount);
    }
    if deadline <= now {
        return Err(ErrorCode::InvalidDeadline);
    }
    Ok(
        Campaign {
            creator,
            title,
            description,
            target_amount,
            current_amount: 0,
            deadline,
            created_at: now,
            is_active: true,
        },
    )
}

/// Fund `campaign` (stored under `campaign_id`) with `amount` from
/// `contributor` at time `now`: validate, move the amount from the
/// contributor's balance into the campaign's escrow balance, raise
/// `current_amount`, and return the new contribution record. On any failure
/// nothing changes. The two balances together are conserved.
pub fn fund_campaign(
    campaign: &mut Campaign,
    campaign_id: usize,
    contributor: usize,
    contributor_balance: &mut u64,
    escrow_balance: &mut u64,
    amount: u64,
    now: i64,
) -> (r: Result<Contribution, LedgerError>)
    requires
        fund_allowed(*old(campaign), amount, *old(contributor_balance), now) ==> {
            &&& *old(escrow_balance) + amount <= u64::MAX
            &&& old(campaign).current_amount + amount <= u64::MAX
        },
    ensures
        r is Ok <==> fund_allowed(*old(campaign), amount, *old(contributor_balance), now),
        r is Ok ==> {
            &&& *final(campaign) == old(campaign).funded(amount)
            &&& *final(contributor_balance) == *old(contributor_balance) - amount
            &&& *final(escrow_balance) == *old(escrow_balance) + amount
            &&& r->Ok_0 == (Contribution { contributor, campaign: campaign_id, amount, timestamp: now })
        },
        r is Err ==> {
            &&& r->Err_0 == fund_error(*old(campaign), amount, *old(contributor_balance), now)
            &&& *final(campaign) == *old(campaign)
            &&& *final(contributor_balance) == *old(contributor_balance)
            &&& *final(escrow_balance) == *old(escrow_balance)
        },
        *final(contributor_balance) + *final(escrow_balance) == *old(contributor_balance)
            + *old(escrow_balance),
{
    if !campaign.is_active {
        return Err(LedgerError::Code(ErrorCode::CampaignNotActive));
    }
    if now >= campaign.deadline {
        return Err(LedgerError::Code(ErrorCode::CampaignExpired));
    }
    if amount == 0 {
        return Err(LedgerError::Code(ErrorCode::InvalidAmount));
    }
    if amount > *contributor_balance {
        return Err(LedgerError::InsufficientBalance);
    }
    *contributor_balance = *contributor_balance - amount;
    *escrow_balance = *escrow_balance + amount;
    campaign.current_amount = campaign.current_amount + amount;
    Ok(Contribution { contributor, campaign: campaign_id, amount, timestamp: now })
}

/// Withdraw the whole recorded amount of `campaign` to its creator at time
/// `now`: validate authorization, activity and the release condition, move
/// `current_amount` from the escrow balance to the creator's balance, then
/// empty and permanently close the campaign. All-or-nothing: no partial
/// withdrawal, and on any failure nothing changes. A withdrawal never moves
/// more than the escrow balance actually holds; the two balances together
/// are conserved.
pub fn withdraw_funds(
    campaign: &mut Campaign,
    escrow_balance: &mut u64,
    creator_balance: &mut u64,
    caller: usize,
    now: i64,
) -> (r: Result<(), LedgerError>)
    requires
        withdraw_ok(*old(campaign), *old(escrow_balance), caller, now)
            ==> *old(creator_balance) + old(campaign).current_amount <= u64::MAX,
    ensures
        r is Ok <==> withdraw_ok(*old(campaign), *old(escrow_balance), caller, now),
        caller != old(campaign).creator ==> r is Err && r->Err_0 == LedgerError::Code(
            ErrorCode::UnauthorizedWithdrawal,
        ),
        r is Ok ==> {
            &&& *final(campaign) == old(campaign).closed()
            &&& old(campaign).current_amount <= *old(escrow_balance)
            &&& *final(escrow_balance) == *old(escrow_balance) - old(campaign).current_amount
            &&& *final(creator_balance) == *old(creator_balance) + old(campaign).current_amount
        },
        r is Err ==> {
            &&& r->Err_0 == withdraw_error(*old(campaign), *old(escrow_balance), caller, now)
            &&& *final(campaign) == *old(campaign)
            &&& *final(escrow_balance) == *old(escrow_balance)
            &&& *final(creator_balance) == *old(creator_balance)
        },
        *final(escrow_balance) + *final(creator_balance) == *old(escrow_balance)
            + *old(creator_balance),
{
    if caller != campaign.creator {
        return Err(LedgerError::Code(ErrorCode::UnauthorizedWithdrawal));
    }
    if !campaign.is_active {
        return Err(LedgerError::Code(ErrorCode::CampaignNotActive));
    }
    if !(campaign.current_amount >= campaign.target_amount || now >= campaign.deadline) {
        return Err(LedgerError::Code(ErrorCode::WithdrawalNotAllowed));
    }
    let withdrawal_amount = campaign.current_amount;
    if withdrawal_amount > *escrow_balance {
        return Err(LedgerError::InsufficientBalance);
    }
    *escrow_balance = *escrow_balance - withdrawal_amount;
    *creator_balance = *creator_balance + withdrawal_amount;
    campaign.current_amount = 0;
    campaign.is_active = false;
    Ok(())
}

/// Refund `contribution` to its contributor at time `now`: validate the
/// refund window (deadline passed, goal unmet) against `campaign`, the
/// caller's identity against the contribution record, and move the recorded
/// amount from the escrow balance back to the contributor's balance. The
/// campaign record itself is untouched: in particular `current_amount` is
/// deliberately not decremented, so after a refund it overstates the escrow
/// balance; a later Withdraw is then stopped by the escrow balance check.
/// Destroying the contribution record is the storage layer's part. The two
/// balances together are conserved.
pub fn refund_contribution(
    campaign: &Campaign,
    contribution: &Contribution,
    escrow_balance: &mut u64,
    contributor_balance: &mut u64,
    caller: usize,
    now: i64,
) -> (r: Result<(), LedgerError>)
    requires
        refund_ok(*campaign, *contribution, *old(escrow_balance), caller, now)
            ==> *old(contributor_balance) + contribution.amount <= u64::MAX,
    ensures
        r is Ok <==> refund_ok(*campaign, *contribution, *old(escrow_balance), caller, now),
        contribution.contributor != caller ==> r is Err,
        campaign.refund_window(now) && contribution.contributor != caller ==> r->Err_0
            == LedgerError::Code(ErrorCode::UnauthorizedRefund),
        r is Ok ==> {
            &&& contribution.amount <= *old(escrow_balance)
            &&& *final(escrow_balance) == *old(escrow_balance) - contribution.amount
            &&& *final(contributor_balance) == *old(contributor_balance) + contribution.amount
        },
        r is Err ==> {
            &&& r->Err_0 == refund_error(*campaign, *contribution, *old(escrow_balance), caller, now)
            &&& *final(escrow_balance) == *old(escrow_balance)
            &&& *final(contributor_balance) == *old(contributor_balance)
        },
        *final(escrow_balance) + *final(contributor_balance) == *old(escrow_balance)
            + *old(contributor_balance),
{
    if !(now >= campaign.deadline && campaign.current_amount < campaign.target_amount) {
        return Err(LedgerError::Code(ErrorCode::RefundNotAllowed));
    }
    if contribution.contributor != caller {
        return Err(LedgerError::Code(ErrorCode::UnauthorizedRefund));
    }
    let refund_amount = contribution.amount;
    if refund_amount > *escrow_balance {
        return Err(LedgerError::InsufficientBalance);
    }
    *escrow_balance = *escrow_balance - refund_amount;
    *contributor_balance = *contributor_balance + refund_amount;
    Ok(())
}

} // verus!
