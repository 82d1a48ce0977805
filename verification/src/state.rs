//! The two persistent record types and the spec-level conditions on them.
//!
//! Identities (the creator of a campaign, the contributor behind a
//! contribution) are account identifiers issued by the host ledger; the
//! state machine only ever compares them for equality. A campaign is named
//! by the identifier its record was stored under, and a contribution record
//! carries that identifier as its back-reference.

use vstd::prelude::*;
use vstd::string::StringSliceAdditionalSpecFns;

verus! {

/// Bytes of a campaign record besides the title: an 8-byte record tag, a
/// 32-byte creator identity, two 4-byte length prefixes, 500 bytes reserved
/// for the description, four 8-byte integer fields and one flag byte.
pub const CAMPAIGN_FIXED_SPACE: usize = 8 + 32 + 4 + 4 + 500 + 8 + 8 + 8 + 8 + 1;

/// One persistent record per campaign. Everything but `current_amount` and
/// `is_active` is immutable after creation.
#[derive(Clone, Debug)]
pub struct Campaign {
    /// Identity of the only party allowed to withdraw.
    pub creator: usize,
    /// Metadata, at most 100 characters.
    pub title: String,
    /// Metadata, at most 500 characters.
    pub description: String,
    /// The funding goal; always positive.
    pub target_amount: u64,
    /// Total value funded so far: raised by each Fund, reset to 0 by a
    /// successful Withdraw, and left untouched by Refund.
    pub current_amount: u64,
    /// Timestamp after which funding closes and withdrawal or refund opens.
    pub deadline: i64,
    /// Timestamp of creation; always before the deadline.
    pub created_at: i64,
    /// True from creation until a successful Withdraw, then permanently false.
    pub is_active: bool,
}

impl Campaign {
    /// Well-formedness established at creation and preserved by every
    /// operation: metadata bounds, a positive goal, a deadline after creation.
    pub open spec fn wf(self) -> bool {
        &&& self.title@.len() <= 100
        &&& self.description@.len() <= 500
        &&& self.target_amount > 0
        &&& self.deadline > self.created_at
    }

    /// The funding goal has been reached.
    pub open spec fn goal_met(self) -> bool {
        self.current_amount >= self.target_amount
    }

    /// The release condition for Withdraw: the goal is met, or the deadline
    /// has passed (whatever was raised is then released).
    pub open spec fn withdraw_allowed(self, now: i64) -> bool {
        self.goal_met() || now >= self.deadline
    }

    /// The refund window: the deadline has passed with the goal unmet.
    pub open spec fn refund_window(self, now: i64) -> bool {
        now >= self.deadline && !self.goal_met()
    }

    /// The campaign after a successful Fund of `amount`.
    pub open spec fn funded(self, amount: u64) -> Campaign {
        Campaign { current_amount: (self.current_amount + amount) as u64, ..self }
    }

    /// The campaign after a successful Withdraw: emptied and permanently
    /// closed.
    pub open spec fn closed(self) -> Campaign {
        Campaign { current_amount: 0, is_active: false, ..self }
    }

    /// Storage footprint in bytes of a campaign record with this title:
    /// the fixed part plus the title's bytes.
    pub fn space(title: &str) -> (r: usize)
        requires
            title.spec_bytes().len() + CAMPAIGN_FIXED_SPACE <= usize::MAX,
        ensures
            r == CAMPAIGN_FIXED_SPACE + title.spec_bytes().len(),
    {
        8 + 32 + (4 + title.len()) + (4 + 500) + 8 + 8 + 8 + 8 + 1
    }
}

/// The deadline and the goal gate the operations exclusively: at any one
/// time, and for one reading of `current_amount` against `target_amount`,
/// the funding window (strictly before the deadline) and the refund window
/// (deadline passed, goal unmet) never overlap; the refund window never
/// overlaps the goal-met release condition; and whenever the refund window
/// is open, the withdraw release condition holds only through its deadline
/// branch.
pub proof fn lemma_deadline_gates(c: Campaign, now: i64)
    ensures
        !(now < c.deadline && c.refund_window(now)),
        c.refund_window(now) ==> !c.goal_met(),
        c.goal_met() ==> c.withdraw_allowed(now),
        c.refund_window(now) ==> c.withdraw_allowed(now) && now >= c.deadline,
{
}

/// One persistent record per (campaign, contributor) pair: created by Fund,
/// destroyed by Refund, immutable in between.
#[derive(Clone, Copy, Debug, PartialEq, Eq, Structural)]
pub struct Contribution {
    /// Identity of the depositor.
    pub contributor: usize,
    /// Identifier of the campaign funded.
    pub campaign: usize,
    /// Value transferred into escrow at creation; always positive.
    pub amount: u64,
    /// Time of the deposit.
    pub timestamp: i64,
}

impl Contribution {
    /// Storage footprint in bytes of a contribution record: an 8-byte record
    /// tag, two 32-byte identities and two 8-byte integer fields.
    pub const SPACE: usize = 8 + 32 + 32 + 8 + 8;
}

} // verus!
