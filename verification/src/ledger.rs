//! A model of the host ledger environment, and the four operations composed
//! against it.
//!
//! The host supplies what the state machine assumes: account balances with
//! atomic value transfer, durable record storage keyed by (creator, title)
//! for campaigns and by (campaign, contributor) for contributions, and a
//! monotonic clock. [`Ledger`] holds exactly that state; its methods resolve
//! identifiers to records and balances, enforce the storage keys, and call
//! the operations of [`crate::instructions`]. The host hands an operation
//! only identifiers it has already resolved — an authenticated caller's
//! account, a stored campaign or contribution record — which is what the
//! methods' preconditions state.
//!
//! Two invariants are carried across every operation by [`Ledger::wf`]:
//! value conservation (the total of all balances never changes, so no value
//! is created or destroyed) and escrow soundness (an active campaign's
//! escrow balance never exceeds its recorded `current_amount`, and equals it
//! until the deadline passes).

use vstd::prelude::*;

use crate::errors::ErrorCode;
use crate::errors::LedgerError;
use crate::instructions;
use crate::state::Campaign;
use crate::state::Contribution;

verus! {

/// Total of a sequence of balances, as an unbounded integer.
pub open spec fn sum(s: Seq<u64>) -> int
    decreases s.len(),
{
    if s.len() == 0 {
        0
    } else {
        sum(s.drop_last()) + s.last()
    }
}

/// A total of balances is never negative.
pub proof fn lemma_sum_nonneg(s: Seq<u64>)
    ensures
        sum(s) >= 0,
    decreases s.len(),
{
    if s.len() > 0 {
        lemma_sum_nonneg(s.drop_last());
    }
}

/// Each balance is covered by the total.
pub proof fn lemma_sum_elem(s: Seq<u64>, i: int)
    requires
        0 <= i < s.len(),
    ensures
        s[i] <= sum(s),
    decreases s.len(),
{
    lemma_sum_nonneg(s.drop_last());
    if i < s.len() - 1 {
        lemma_sum_elem(s.drop_last(), i);
    }
}

/// Replacing one balance moves the total by exactly the difference.
pub proof fn lemma_sum_update(s: Seq<u64>, i: int, v: u64)
    requires
        0 <= i < s.len(),
    ensures
        sum(s.update(i, v)) == sum(s) - s[i] + v,
    decreases s.len(),
{
    if i == s.len() - 1 {
        assert(s.update(i, v).drop_last() =~= s.drop_last());
    } else {
        assert(s.update(i, v).drop_last() =~= s.drop_last().update(i, v));
        lemma_sum_update(s.drop_last(), i, v);
    }
}

/// Appending a balance adds it to the total.
pub proof fn lemma_sum_push(s: Seq<u64>, v: u64)
    ensures
        sum(s.push(v)) == sum(s) + v,
{
    assert(s.push(v).drop_last() =~= s);
}

/// A prefix never totals more than the whole.
pub proof fn lemma_sum_take(s: Seq<u64>, m: int)
    requires
        0 <= m <= s.len(),
    ensures
        sum(s.take(m)) <= sum(s),
    decreases s.len(),
{
    if m == s.len() {
        assert(s.take(m) =~= s);
    } else {
        assert(s.drop_last().take(m) =~= s.take(m));
        lemma_sum_take(s.drop_last(), m);
    }
}

/// The host environment's state: account balances (indexed by identity),
/// the campaign records with their escrow balances (indexed by campaign
/// identifier), the contribution records, and the clock.
pub struct Ledger {
    /// Balance of each account; an account identifier is an index here.
    pub accounts: Vec<u64>,
    /// Campaign records; a campaign identifier is an index here.
    pub campaigns: Vec<Campaign>,
    /// Escrowed balance of each campaign, held by the campaign's own record.
    pub escrows: Vec<u64>,
    /// The live contribution records, one per (campaign, contributor) pair.
    pub contributions: Vec<Contribution>,
    /// The clock; only moves forward.
    pub now: i64,
}

/// Two ledgers hold the same state.
pub open spec fn state_eq(a: Ledger, b: Ledger) -> bool {
    &&& a.accounts@ == b.accounts@
    &&& a.campaigns@ == b.campaigns@
    &&& a.escrows@ == b.escrows@
    &&& a.contributions@ == b.contributions@
    &&& a.now == b.now
}

impl Ledger {
    /// Total value in the system: every account balance plus every escrow.
    pub open spec fn total(self) -> int {
        sum(self.accounts@) + sum(self.escrows@)
    }

    /// The identifier names a stored campaign record.
    pub open spec fn has_campaign(self, id: usize) -> bool {
        id < self.campaigns@.len()
    }

    /// The identifier names a stored account balance.
    pub open spec fn has_account(self, id: usize) -> bool {
        id < self.accounts@.len()
    }

    /// A campaign record with storage key (creator, title) exists.
    pub open spec fn has_campaign_key(self, creator: usize, title: Seq<char>) -> bool {
        exists|i: int|
            0 <= i < self.campaigns@.len() && (#[trigger] self.campaigns@[i]).creator == creator
                && self.campaigns@[i].title@ == title
    }

    /// A contribution record with storage key (campaign, contributor) exists.
    pub open spec fn has_contribution_key(self, campaign: usize, contributor: usize) -> bool {
        exists|i: int|
            0 <= i < self.contributions@.len() && (#[trigger] self.contributions@[i]).campaign
                == campaign && self.contributions@[i].contributor == contributor
    }

    /// Well-formedness, established by [`Ledger::new`] and preserved by
    /// every operation:
    /// - each campaign has an escrow balance, a well-formed record and a
    ///   creator whose account exists;
    /// - conservation: the total value fits the balance type, and (by the
    ///   ensures of every operation) never changes;
    /// - escrow soundness: an active campaign's escrow holds exactly its
    ///   recorded `current_amount` until the deadline passes, and never
    ///   more than it afterwards (refunds drain the escrow without
    ///   decrementing the record);
    /// - each contribution names a stored campaign and account, and the
    ///   (campaign, contributor) storage key is unique.
    pub open spec fn wf(self) -> bool {
        &&& self.campaigns@.len() == self.escrows@.len()
        &&& self.total() <= u64::MAX
        &&& forall|i: int|
            0 <= i < self.campaigns@.len() ==> (#[trigger] self.campaigns@[i]).wf()
        &&& forall|i: int|
            0 <= i < self.campaigns@.len() ==> (#[trigger] self.campaigns@[i]).creator
                < self.accounts@.len()
        &&& forall|i: int|
            0 <= i < self.campaigns@.len() && (#[trigger] self.campaigns@[i]).is_active
                ==> self.escrows@[i] <= self.campaigns@[i].current_amount
        &&& forall|i: int|
            0 <= i < self.campaigns@.len() && (#[trigger] self.campaigns@[i]).is_active
                && self.now < self.campaigns@[i].deadline ==> self.escrows@[i]
                == self.campaigns@[i].current_amount
        &&& forall|i: int|
            0 <= i < self.contributions@.len() ==> (#[trigger] self.contributions@[i]).campaign
                < self.campaigns@.len()
        &&& forall|i: int|
            0 <= i < self.contributions@.len() ==> (#[trigger] self.contributions@[i]).contributor
                < self.accounts@.len()
        &&& forall|i: int, j: int|
            0 <= i < j < self.contributions@.len() ==> !((#[trigger] self.contributions@[i]).campaign
                == (#[trigger] self.contributions@[j]).campaign
                && self.contributions@[i].contributor == self.contributions@[j].contributor)
    }

    /// Set up a host ledger holding the given account balances, an empty
    /// record store, and the clock at `start_time`. Returns `None` exactly
    /// when the balances' total does not fit the balance type (conservation
    /// could then not be maintained).
    pub fn new(accounts: Vec<u64>, start_time: i64) -> (r: Option<Ledger>)
        ensures
            r is Some <==> sum(accounts@) <= u64::MAX,
            r matches Some(l) ==> {
                &&& l.wf()
                &&& l.accounts@ == accounts@
                &&& l.campaigns@.len() == 0
                &&& l.escrows@.len() == 0
                &&& l.contributions@.len() == 0
                &&& l.now == start_time
                &&& l.total() == sum(accounts@)
            },
    {
        let mut total: u64 = 0;
        let mut k: usize = 0;
        while k < accounts.len()
            invariant
                k <= accounts@.len(),
                total == sum(accounts@.take(k as int)),
            decreases accounts@.len() - k,
        {
            let b = accounts[k];
            proof {
                assert(accounts@.take(k + 1).drop_last() =~= accounts@.take(k as int));
                assert(accounts@.take(k + 1).last() == accounts@[k as int]);
            }
            match total.checked_add(b) {
                Some(t) => {
                    total = t;
                },
                None => {
                    proof {
                        lemma_sum_take(accounts@, k + 1);
                    }
                    return None;
                },
            }
            k += 1;
        }
        proof {
            assert(accounts@.take(accounts@.len() as int) =~= accounts@);
        }
        Some(
            Ledger {
                accounts,
                campaigns: Vec::new(),
                escrows: Vec::new(),
                contributions: Vec::new(),
                now: start_time,
            },
        )
    }

    /// Create a campaign for `creator` out of the given inputs, judged
    /// against the clock. The record store first rejects a duplicate
    /// (creator, title) key; then the inputs are validated and the record is
    /// stored under a fresh identifier with an empty escrow balance. On any
    /// failure nothing is stored and nothing changes. No value moves.
    pub fn create_campaign(
        &mut self,
        title: String,
        description: String,
        target_amount: u64,
        deadline: i64,
        creator: usize,
    ) -> (r: Result<usize, LedgerError>)
        requires
            old(self).wf(),
            old(self).has_account(creator),
        ensures
            final(self).wf(),
            final(self).total() == old(self).total(),
            final(self).now == old(self).now,
            final(self).accounts@ == old(self).accounts@,
            final(self).contributions@ == old(self).contributions@,
            old(self).has_campaign_key(creator, title@) ==> r is Err && r->Err_0
                == LedgerError::DuplicateKey && state_eq(*final(self), *old(self)),
            !old(self).has_campaign_key(creator, title@) ==> {
                &&& (r is Ok <==> instructions::create_allowed(
                    title@,
                    description@,
                    target_amount,
                    deadline,
                    old(self).now,
                ))
                &&& r is Ok ==> {
                    &&& r->Ok_0 == old(self).campaigns@.len()
                    &&& final(self).campaigns@ == old(self).campaigns@.push(
                        Campaign {
                            creator,
                            title,
                            description,
                            target_amount,
                            current_amount: 0u64,
                            deadline,
                            created_at: old(self).now,
                            is_active: true,
                        },
                    )
                    &&& final(self).escrows@ == old(self).escrows@.push(0u64)
                }
                &&& r is Err ==> r->Err_0 == LedgerError::Code(
                    instructions::create_error(
                        title@,
                        description@,
                        target_amount,
                        deadline,
                        old(self).now,
                    ),
                ) && state_eq(*final(self), *old(self))
            },
    {
        let mut k: usize = 0;
        while k < self.campaigns.len()
            invariant
                old(self).wf(),
                k <= self.campaigns@.len(),
                state_eq(*self, *old(self)),
                forall|i: int|
                    0 <= i < k ==> !((#[trigger] self.campaigns@[i]).creator == creator
                        && self.campaigns@[i].title@ == title@),
            decreases self.campaigns@.len() - k,
        {
            if self.campaigns[k].creator == creator && self.campaigns[k].title == title {
                return Err(LedgerError::DuplicateKey);
            }
            k += 1;
        }
        match instructions::create_campaign(
            title,
            description,
            target_amount,
            deadline,
            creator,
            self.now,
        ) {
            Ok(c) => {
                let id = self.campaigns.len();
                proof {
                    lemma_sum_push(self.escrows@, 0u64);
                }
                self.campaigns.push(c);
                self.escrows.push(0);
                Ok(id)
            },
            Err(e) => Err(LedgerError::Code(e)),
        }
    }

    /// Fund campaign `campaign_id` with `amount` from `contributor`, judged
    /// against the clock. The record store first rejects a duplicate
    /// (campaign, contributor) key — a second contribution by the same pair
    /// fails with `DuplicateKey` and alters nothing, `current_amount`
    /// included. Otherwise the operation validates, moves the amount from
    /// the contributor's balance into the campaign's escrow, raises
    /// `current_amount` and stores the new contribution record; on any
    /// failure nothing changes. The total value is conserved either way.
    pub fn fund_campaign(&mut self, campaign_id: usize, contributor: usize, amount: u64) -> (r:
        Result<(), LedgerError>)
        requires
            old(self).wf(),
            old(self).has_campaign(campaign_id),
            old(self).has_account(contributor),
        ensures
            final(self).wf(),
            final(self).total() == old(self).total(),
            final(self).now == old(self).now,
            old(self).has_contribution_key(campaign_id, contributor) ==> r is Err && r->Err_0
                == LedgerError::DuplicateKey && state_eq(*final(self), *old(self)),
            !old(self).has_contribution_key(campaign_id, contributor) ==> {
                let c = old(self).campaigns@[campaign_id as int];
                let bal = old(self).accounts@[contributor as int];
                &&& (r is Ok <==> instructions::fund_allowed(c, amount, bal, old(self).now))
                &&& r is Ok ==> {
                    &&& final(self).campaigns@ == old(self).campaigns@.update(
                        campaign_id as int,
                        c.funded(amount),
                    )
                    &&& final(self).escrows@ == old(self).escrows@.update(
                        campaign_id as int,
                        (old(self).escrows@[campaign_id as int] + amount) as u64,
                    )
                    &&& final(self).accounts@ == old(self).accounts@.update(
                        contributor as int,
                        (bal - amount) as u64,
                    )
                    &&& final(self).contributions@ == old(self).contributions@.push(
                        Contribution {
                            contributor,
                            campaign: campaign_id,
                            amount,
                            timestamp: old(self).now,
                        },
                    )
                }
                &&& r is Err ==> r->Err_0 == instructions::fund_error(c, amount, bal, old(self).now)
                    && state_eq(*final(self), *old(self))
            },
    {
        let mut k: usize = 0;
        while k < self.contributions.len()
            invariant
                old(self).wf(),
                k <= self.contributions@.len(),
                state_eq(*self, *old(self)),
                forall|i: int|
                    0 <= i < k ==> !((#[trigger] self.contributions@[i]).campaign == campaign_id
                        && self.contributions@[i].contributor == contributor),
            decreases self.contributions@.len() - k,
        {
            let existing = self.contributions[k];
            if existing.campaign == campaign_id && existing.contributor == contributor {
                return Err(LedgerError::DuplicateKey);
            }
            k += 1;
        }
        let mut contributor_balance = self.accounts[contributor];
        let mut escrow_balance = self.escrows[campaign_id];
        proof {
            // The conservation bound covers both balances, so neither the
            // escrow nor the recorded amount can overflow on success: the
            // amount fits in the contributor's balance, and before the
            // deadline the record equals the escrow.
            lemma_sum_elem(self.escrows@, campaign_id as int);
            lemma_sum_elem(self.accounts@, contributor as int);
            lemma_sum_nonneg(self.escrows@);
            lemma_sum_nonneg(self.accounts@);
        }
        let mut c = self.campaigns.remove(campaign_id);
        let r = instructions::fund_campaign(
            &mut c,
            campaign_id,
            contributor,
            &mut contributor_balance,
            &mut escrow_balance,
            amount,
            self.now,
        );
        self.campaigns.insert(campaign_id, c);
        self.accounts.set(contributor, contributor_balance);
        self.escrows.set(campaign_id, escrow_balance);
        match r {
            Ok(contribution) => {
                proof {
                    assert(self.campaigns@ =~= old(self).campaigns@.update(
                        campaign_id as int,
                        old(self).campaigns@[campaign_id as int].funded(amount),
                    ));
                    lemma_sum_update(old(self).accounts@, contributor as int, contributor_balance);
                    lemma_sum_update(old(self).escrows@, campaign_id as int, escrow_balance);
                }
                self.contributions.push(contribution);
                proof {
                    let cs = self.contributions@;
                    assert forall|i: int, j: int|
                        0 <= i < j < cs.len() implies !((#[trigger] cs[i]).campaign
                        == (#[trigger] cs[j]).campaign && cs[i].contributor
                        == cs[j].contributor) by {
                        if j == cs.len() - 1 {
                            assert(!(cs[i].campaign == campaign_id && cs[i].contributor
                                == contributor));
                        }
                    }
                }
                Ok(())
            },
            Err(e) => {
                proof {
                    assert(self.campaigns@ =~= old(self).campaigns@);
                    assert(self.accounts@ =~= old(self).accounts@);
                    assert(self.escrows@ =~= old(self).escrows@);
                }
                Err(e)
            },
        }
    }

    /// Withdraw the whole recorded amount of campaign `campaign_id` to its
    /// creator, judged against the clock: only the creator may call it, only
    /// while the campaign is active, and only once the goal is met or the
    /// deadline has passed. On success the recorded amount moves from the
    /// escrow to the creator's balance and the campaign is emptied and
    /// permanently closed; a withdrawal never moves more than the escrow
    /// actually holds, and on any failure nothing changes. The total value
    /// is conserved either way. Contribution records are not touched.
    pub fn withdraw_funds(&mut self, campaign_id: usize, caller: usize) -> (r: Result<
        (),
        LedgerError,
    >)
        requires
            old(self).wf(),
            old(self).has_campaign(campaign_id),
            old(self).has_account(caller),
        ensures
            final(self).wf(),
            final(self).total() == old(self).total(),
            final(self).now == old(self).now,
            final(self).contributions@ == old(self).contributions@,
            ({
                let c = old(self).campaigns@[campaign_id as int];
                let escrow = old(self).escrows@[campaign_id as int];
                &&& (r is Ok <==> instructions::withdraw_ok(c, escrow, caller, old(self).now))
                &&& caller != c.creator ==> r is Err && r->Err_0 == LedgerError::Code(
                    ErrorCode::UnauthorizedWithdrawal,
                )
                &&& r is Ok ==> {
                    &&& c.current_amount <= escrow
                    &&& final(self).campaigns@ == old(self).campaigns@.update(
                        campaign_id as int,
                        c.closed(),
                    )
                    &&& final(self).escrows@ == old(self).escrows@.update(
                        campaign_id as int,
                        (escrow - c.current_amount) as u64,
                    )
                    &&& final(self).accounts@ == old(self).accounts@.update(
                        c.creator as int,
                        (old(self).accounts@[c.creator as int] + c.current_amount) as u64,
                    )
                }
                &&& r is Err ==> r->Err_0 == instructions::withdraw_error(
                    c,
                    escrow,
                    caller,
                    old(self).now,
                ) && state_eq(*final(self), *old(self))
            }),
    {
        let creator = self.campaigns[campaign_id].creator;
        let mut creator_balance = self.accounts[creator];
        let mut escrow_balance = self.escrows[campaign_id];
        proof {
            // The conservation bound covers the escrow and the creator's
            // balance, so the creator's balance cannot overflow on success,
            // where the amount moved fits in the escrow.
            lemma_sum_elem(self.escrows@, campaign_id as int);
            lemma_sum_elem(self.accounts@, creator as int);
            lemma_sum_nonneg(self.escrows@);
            lemma_sum_nonneg(self.accounts@);
        }
        let mut c = self.campaigns.remove(campaign_id);
        let r = instructions::withdraw_funds(
            &mut c,
            &mut escrow_balance,
            &mut creator_balance,
            caller,
            self.now,
        );
        self.campaigns.insert(campaign_id, c);
        self.accounts.set(creator, creator_balance);
        self.escrows.set(campaign_id, escrow_balance);
        match r {
            Ok(()) => {
                proof {
                    assert(self.campaigns@ =~= old(self).campaigns@.update(
                        campaign_id as int,
                        old(self).campaigns@[campaign_id as int].closed(),
                    ));
                    lemma_sum_update(old(self).accounts@, creator as int, creator_balance);
                    lemma_sum_update(old(self).escrows@, campaign_id as int, escrow_balance);
                }
                Ok(())
            },
            Err(e) => {
                proof {
                    assert(self.campaigns@ =~= old(self).campaigns@);
                    assert(self.accounts@ =~= old(self).accounts@);
                    assert(self.escrows@ =~= old(self).escrows@);
                }
                Err(e)
            },
        }
    }

    /// Refund contribution `contribution_id` against campaign `campaign_id`,
    /// judged against the clock: only once the campaign's deadline has
    /// passed with its goal unmet, and only to the caller that made the
    /// contribution. On success the recorded contribution amount moves from
    /// the campaign's escrow back to the contributor's balance and the
    /// contribution record is destroyed; on any failure nothing changes.
    /// The campaign record is untouched either way: in particular
    /// `current_amount` is deliberately not decremented, so after a refund
    /// it overstates the escrow balance, and a later withdrawal is stopped
    /// by the escrow balance check. The total value is conserved either way.
    pub fn refund_contribution(
        &mut self,
        campaign_id: usize,
        contribution_id: usize,
        caller: usize,
    ) -> (r: Result<(), LedgerError>)
        requires
            old(self).wf(),
            old(self).has_campaign(campaign_id),
            contribution_id < old(self).contributions@.len(),
            old(self).has_account(caller),
        ensures
            final(self).wf(),
            final(self).total() == old(self).total(),
            final(self).now == old(self).now,
            final(self).campaigns@ == old(self).campaigns@,
            ({
                let c = old(self).campaigns@[campaign_id as int];
                let ct = old(self).contributions@[contribution_id as int];
                let escrow = old(self).escrows@[campaign_id as int];
                &&& (r is Ok <==> instructions::refund_ok(c, ct, escrow, caller, old(self).now))
                &&& ct.contributor != caller ==> r is Err
                &&& c.refund_window(old(self).now) && ct.contributor != caller ==> r->Err_0
                    == LedgerError::Code(ErrorCode::UnauthorizedRefund)
                &&& r is Ok ==> {
                    &&& ct.amount <= escrow
                    &&& final(self).contributions@ == old(self).contributions@.remove(
                        contribution_id as int,
                    )
                    &&& final(self).escrows@ == old(self).escrows@.update(
                        campaign_id as int,
                        (escrow - ct.amount) as u64,
                    )
                    &&& final(self).accounts@ == old(self).accounts@.update(
                        ct.contributor as int,
                        (old(self).accounts@[ct.contributor as int] + ct.amount) as u64,
                    )
                }
                &&& r is Err ==> r->Err_0 == instructions::refund_error(
                    c,
                    ct,
                    escrow,
                    caller,
                    old(self).now,
                ) && state_eq(*final(self), *old(self))
            }),
    {
        let contribution = self.contributions[contribution_id];
        let mut contributor_balance = self.accounts[contribution.contributor];
        let mut escrow_balance = self.escrows[campaign_id];
        proof {
            // The conservation bound covers the escrow and the contributor's
            // balance, so the contributor's balance cannot overflow on
            // success, where the amount moved fits in the escrow.
            lemma_sum_elem(self.escrows@, campaign_id as int);
            lemma_sum_elem(self.accounts@, contribution.contributor as int);
            lemma_sum_nonneg(self.escrows@);
            lemma_sum_nonneg(self.accounts@);
        }
        let r = instructions::refund_contribution(
            &self.campaigns[campaign_id],
            &contribution,
            &mut escrow_balance,
            &mut contributor_balance,
            caller,
            self.now,
        );
        self.accounts.set(contribution.contributor, contributor_balance);
        self.escrows.set(campaign_id, escrow_balance);
        match r {
            Ok(()) => {
                self.contributions.remove(contribution_id);
                proof {
                    lemma_sum_update(old(self).accounts@, contribution.contributor as int,
                        contributor_balance);
                    lemma_sum_update(old(self).escrows@, campaign_id as int, escrow_balance);
                    let cs = self.contributions@;
                    let os = old(self).contributions@;
                    assert forall|i: int, j: int|
                        0 <= i < j < cs.len() implies !((#[trigger] cs[i]).campaign
                        == (#[trigger] cs[j]).campaign && cs[i].contributor
                        == cs[j].contributor) by {
                        let oi = if i < contribution_id as int { i } else { i + 1 };
                        let oj = if j < contribution_id as int { j } else { j + 1 };
                        assert(cs[i] == os[oi]);
                        assert(cs[j] == os[oj]);
                    }
                }
                Ok(())
            },
            Err(e) => {
                proof {
                    assert(self.accounts@ =~= old(self).accounts@);
                    assert(self.escrows@ =~= old(self).escrows@);
                }
                Err(e)
            },
        }
    }

    /// Move the clock forward to `t`; the clock is monotonic, so an earlier
    /// time is ignored. Records and balances are untouched.
    pub fn advance_time(&mut self, t: i64)
        requires
            old(self).wf(),
        ensures
            final(self).wf(),
            final(self).now == if t > old(self).now { t } else { old(self).now },
            final(self).now >= old(self).now,
            final(self).accounts@ == old(self).accounts@,
            final(self).campaigns@ == old(self).campaigns@,
            final(self).escrows@ == old(self).escrows@,
            final(self).contributions@ == old(self).contributions@,
            final(self).total() == old(self).total(),
    {
        if t > self.now {
            self.now = t;
        }
    }
}

} // verus!
