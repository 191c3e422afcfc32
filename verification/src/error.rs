//! The ways in which a transition can be refused.

use vstd::prelude::*;

verus! {

/// Why a transition was refused. A refused transition leaves every record
/// as it was.
#[derive(Clone, Copy, Debug, PartialEq, Eq, Structural)]
pub enum ErrorCode {
    /// The milestone's funds have already been released.
    AlreadyReleased,
    /// Fewer distinct validators than the quorum have approved the milestone.
    InsufficientApprovals,
    /// The running total of released funds would leave the range of the
    /// accounting integer.
    AccountingOverflow,
    /// The release would take the vault past what it budgets: its total
    /// amount or its milestones.
    BudgetExceeded,
    /// The token-transfer service declined the transfer.
    TransferFailed,
}

impl ErrorCode {
    /// The text that `message` returns.
    pub open spec fn message_text(self) -> Seq<char> {
        match self {
            ErrorCode::AlreadyReleased => "Milestone already released."@,
            ErrorCode::InsufficientApprovals => "Minimum of 3 approvals required."@,
            ErrorCode::AccountingOverflow => "Released total would overflow."@,
            ErrorCode::BudgetExceeded => "Release would exceed the vault budget."@,
            ErrorCode::TransferFailed => "Token transfer failed."@,
        }
    }

    /// A sentence that describes the refusal to a caller.
    pub fn message(&self) -> (text: &'static str)
        ensures
            text@ == self.message_text(),
    {
        match self {
            ErrorCode::AlreadyReleased => "Milestone already released.",
            ErrorCode::InsufficientApprovals => "Minimum of 3 approvals required.",
            ErrorCode::AccountingOverflow => "Released total would overflow.",
            ErrorCode::BudgetExceeded => "Release would exceed the vault budget.",
            ErrorCode::TransferFailed => "Token transfer failed.",
        }
    }
}

} // verus!
