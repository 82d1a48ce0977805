//! Error kinds raised by the four operations.

use vstd::prelude::*;

verus! {

/// A precondition violation detected by the escrow state machine itself.
/// Every check happens before any mutation, so an operation that returns
/// one of these has changed nothing.
#[derive(Clone, Copy, Debug, PartialEq, Eq, Structural)]
pub enum ErrorCode {
    /// Create: the title exceeds 100 units.
    TitleTooLong,
    /// Create: the description exceeds 500 units.
    DescriptionTooLong,
    /// Create: the target amount is not positive.
    InvalidTargetAmount,
    /// Create: the deadline is not in the future.
    InvalidDeadline,
    /// Fund or Withdraw: the campaign was already closed by a withdrawal.
    CampaignNotActive,
    /// Fund: the deadline has passed.
    CampaignExpired,
    /// Fund: the amount is not positive.
    InvalidAmount,
    /// Withdraw: the caller is not the campaign's creator.
    UnauthorizedWithdrawal,
    /// Withdraw: the goal is unmet and the deadline has not passed.
    WithdrawalNotAllowed,
    /// Refund: the goal succeeded, or the deadline has not passed.
    RefundNotAllowed,
    /// Refund: the caller did not make this contribution.
    UnauthorizedRefund,
}

/// A failure as the host ledger reports it: either a precondition violation
/// from the state machine, or a failure raised by the environment itself
/// (its keyed record storage or its atomic value transfer).
#[derive(Clone, Copy, Debug, PartialEq, Eq, Structural)]
pub enum LedgerError {
    /// The state machine rejected the operation.
    Code(ErrorCode),
    /// Record storage refused to create a record whose key already exists.
    DuplicateKey,
    /// A transfer's source balance holds less than the requested amount.
    InsufficientBalance,
}

} // verus!
