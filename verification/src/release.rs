//! The release transition: the checks that guard a milestone's funds, the
//! transfer they authorize, and the commit that follows an accepted transfer.
//!
//! The token-transfer service is not part of this library. A release
//! therefore runs in three steps, all inside one transition of the ledger:
//! `authorize_release` checks the records and says which transfer to ask for,
//! the caller asks the service for it, and `release_funds` takes the service's
//! answer and commits or refuses.

use vstd::prelude::*;
use crate::error::ErrorCode;
use crate::identity::Identity;
use crate::milestone::{Milestone, MilestoneView, QUORUM_THRESHOLD};
use crate::vault::{Vault, VaultView};

verus! {

/// The records and accounts that one release works on.
#[derive(Debug, PartialEq, Eq)]
pub struct ReleaseFunds {
    /// The vault that pays.
    pub vault: Vault,
    /// The milestone to be released.
    pub milestone: Milestone,
    /// The address of the vault record. The vault itself, not the caller,
    /// signs for the transfer.
    pub vault_key: Identity,
    /// The custodial account that holds the vault's balance.
    pub vault_token_account: Identity,
    /// The account that receives the funds.
    pub recipient_token_account: Identity,
}

impl Clone for ReleaseFunds {
    fn clone(&self) -> (copy: ReleaseFunds)
        ensures
            copy.vault@ == self.vault@,
            copy.milestone@ == self.milestone@,
            copy.vault_key == self.vault_key,
            copy.vault_token_account == self.vault_token_account,
            copy.recipient_token_account == self.recipient_token_account,
    {
        ReleaseFunds {
            vault: self.vault.clone(),
            milestone: self.milestone.clone(),
            vault_key: self.vault_key,
            vault_token_account: self.vault_token_account,
            recipient_token_account: self.recipient_token_account,
        }
    }
}

/// The announcement of a completed release.
#[derive(Clone, Copy, Debug, PartialEq, Eq)]
pub struct MilestoneReleased {
    /// The address of the vault that paid.
    pub vault: Identity,
    /// The index of the milestone that was released.
    pub milestone_index: u8,
    /// The amount that was released.
    pub amount: u64,
}

/// A transfer to ask of the token-transfer service.
#[derive(Clone, Copy, Debug, PartialEq, Eq)]
pub struct TransferOrder {
    /// The custodial account to take the funds from.
    pub from: Identity,
    /// The account to pay them to.
    pub to: Identity,
    /// Who signs for the transfer.
    pub authority: Identity,
    /// How much to move.
    pub amount: u64,
}

/// What the token-transfer service answered.
#[derive(Clone, Copy, Debug, PartialEq, Eq, Structural)]
pub enum TransferOutcome {
    /// The transfer was made.
    Accepted,
    /// The service declined, or failed.
    Declined,
}

/// Why the records refuse a release of `amount`, if they do. The checks run
/// in this order: quorum, not yet released, range of the accounting integer,
/// budget of the vault.
pub open spec fn release_refusal(vault: VaultView, milestone: MilestoneView, amount: nat) -> Option<
    ErrorCode,
> {
    if !milestone.has_quorum() {
        Some(ErrorCode::InsufficientApprovals)
    } else if milestone.released {
        Some(ErrorCode::AlreadyReleased)
    } else if vault.overflows_with(amount) {
        Some(ErrorCode::AccountingOverflow)
    } else if !vault.budgets_for(milestone.index, amount) {
        Some(ErrorCode::BudgetExceeded)
    } else {
        None
    }
}

/// Why a release of `amount` fails, if it does, given the answer of the
/// token-transfer service. A refusal by the records comes first: the service
/// is then never asked.
pub open spec fn release_failure(
    vault: VaultView,
    milestone: MilestoneView,
    amount: nat,
    outcome: TransferOutcome,
) -> Option<ErrorCode> {
    if release_refusal(vault, milestone, amount) is Some {
        release_refusal(vault, milestone, amount)
    } else if outcome == TransferOutcome::Declined {
        Some(ErrorCode::TransferFailed)
    } else {
        None
    }
}

impl ReleaseFunds {
    /// The transfer that a release of `amount` asks for: from the vault's
    /// custodial account to the recipient, signed by the vault.
    pub open spec fn transfer_order(self, amount: u64) -> TransferOrder {
        TransferOrder {
            from: self.vault_token_account,
            to: self.recipient_token_account,
            authority: self.vault_key,
            amount,
        }
    }

    /// The announcement of a release of `amount`.
    pub open spec fn release_event(self, amount: u64) -> MilestoneReleased {
        MilestoneReleased { vault: self.vault_key, milestone_index: self.milestone.index, amount }
    }

    /// What `authorize_release` answers.
    pub open spec fn authorization(self, amount: u64) -> Result<TransferOrder, ErrorCode> {
        match release_refusal(self.vault@, self.milestone@, amount as nat) {
            Some(e) => Err(e),
            None => Ok(self.transfer_order(amount)),
        }
    }

    /// What `release_funds` answers.
    pub open spec fn release_result(self, amount: u64, outcome: TransferOutcome) -> Result<
        MilestoneReleased,
        ErrorCode,
    > {
        match release_failure(self.vault@, self.milestone@, amount as nat, outcome) {
            Some(e) => Err(e),
            None => Ok(self.release_event(amount)),
        }
    }
}

/// Checks whether `milestone_amount` may be released for the milestone, and
/// if so says which transfer to ask of the token-transfer service. Changes
/// nothing.
pub fn authorize_release(ctx: &ReleaseFunds, milestone_amount: u64) -> (result: Result<
    TransferOrder,
    ErrorCode,
>)
    ensures
        result == ctx.authorization(milestone_amount),
{
    if ctx.milestone.approval_count() < QUORUM_THRESHOLD {
        return Err(ErrorCode::InsufficientApprovals);
    }
    if ctx.milestone.released {
        return Err(ErrorCode::AlreadyReleased);
    }
    let released: u64 = match ctx.vault.released_amount.checked_add(milestone_amount) {
        Some(sum) => sum,
        None => {
            return Err(ErrorCode::AccountingOverflow);
        },
    };
    if released > ctx.vault.total_amount || ctx.milestone.index >= ctx.vault.milestone_count
        || ctx.vault.approved_milestones >= ctx.vault.milestone_count {
        return Err(ErrorCode::BudgetExceeded);
    }
    Ok(
        TransferOrder {
            from: ctx.vault_token_account,
            to: ctx.recipient_token_account,
            authority: ctx.vault_key,
            amount: milestone_amount,
        },
    )
}

/// Completes a release of `milestone_amount`, given the answer of the
/// token-transfer service to the transfer that `authorize_release` ordered.
///
/// The records are checked again. If they allow the release and the transfer
/// was accepted, the milestone is marked released, the vault's running totals
/// grow, and the announcement to emit is returned. Otherwise the records stay
/// as they were.
pub fn release_funds(
    ctx: &mut ReleaseFunds,
    milestone_amount: u64,
    outcome: TransferOutcome,
) -> (result: Result<MilestoneReleased, ErrorCode>)
    ensures
        result == old(ctx).release_result(milestone_amount, outcome),
        result is Err ==> *final(ctx) == *old(ctx),
        result is Ok ==> final(ctx).vault@ == old(ctx).vault@.after_release(
            milestone_amount as nat,
        ),
        result is Ok ==> final(ctx).milestone@ == old(ctx).milestone@.after_release(),
        final(ctx).vault_key == old(ctx).vault_key,
        final(ctx).vault_token_account == old(ctx).vault_token_account,
        final(ctx).recipient_token_account == old(ctx).recipient_token_account,
        old(ctx).vault@.wf() ==> final(ctx).vault@.wf(),
        old(ctx).milestone@.wf() ==> final(ctx).milestone@.wf(),
{
    match authorize_release(ctx, milestone_amount) {
        Err(e) => Err(e),
        Ok(_) => match outcome {
            TransferOutcome::Declined => Err(ErrorCode::TransferFailed),
            TransferOutcome::Accepted => {
                ctx.milestone.released = true;
                ctx.vault.released_amount = ctx.vault.released_amount + milestone_amount;
                ctx.vault.approved_milestones = ctx.vault.approved_milestones + 1;
                Ok(
                    MilestoneReleased {
                        vault: ctx.vault_key,
                        milestone_index: ctx.milestone.index,
                        amount: milestone_amount,
                    },
                )
            },
        },
    }
}

/// One attempt to release a milestone of a vault: the milestone record as it
/// stands at the attempt, the amount asked for, and what the token-transfer
/// service answers if it is asked.
pub struct ReleaseAttempt {
    pub milestone: MilestoneView,
    pub amount: nat,
    pub outcome: TransferOutcome,
}

/// The vault record after a release attempt: updated where the release goes
/// through, untouched where it fails.
pub open spec fn vault_after_attempt(vault: VaultView, attempt: ReleaseAttempt) -> VaultView {
    if release_failure(vault, attempt.milestone, attempt.amount, attempt.outcome) is None {
        vault.after_release(attempt.amount)
    } else {
        vault
    }
}

/// The vault record after a sequence of release attempts, in their order.
pub open spec fn vault_after_attempts(vault: VaultView, attempts: Seq<ReleaseAttempt>) -> VaultView
    decreases attempts.len(),
{
    if attempts.len() == 0 {
        vault
    } else {
        vault_after_attempt(vault_after_attempts(vault, attempts.drop_last()), attempts.last())
    }
}

/// A release that the records allow keeps the vault's accounting invariant:
/// the released total stays within the escrowed total, and the count of
/// released milestones within the number of milestones.
pub proof fn lemma_release_keeps_vault_invariant(
    vault: VaultView,
    milestone: MilestoneView,
    amount: nat,
)
    requires
        vault.wf(),
        release_refusal(vault, milestone, amount) is None,
    ensures
        vault.after_release(amount).wf(),
        vault.after_release(amount).released_amount <= u64::MAX,
        vault.after_release(amount).released_amount >= vault.released_amount,
        vault.after_release(amount).total_amount == vault.total_amount,
        vault.after_release(amount).milestone_count == vault.milestone_count,
{
}

/// The accounting invariant holds in every state that a vault can reach.
/// Releases are all that change a vault once it is funded, and a funded vault
/// meets the invariant. Whatever releases are then attempted, on whatever
/// milestone records, for whatever amounts and with whatever answers of the
/// token-transfer service: the released total stays within the escrowed total
/// and the count of released milestones within the number of milestones.
/// Neither running total ever shrinks, and authority, escrowed total, number
/// of milestones and name stay as they were set.
pub proof fn lemma_vault_invariant_holds_throughout(
    vault: VaultView,
    attempts: Seq<ReleaseAttempt>,
)
    requires
        vault.wf(),
    ensures
        vault_after_attempts(vault, attempts).wf(),
        vault_after_attempts(vault, attempts).released_amount >= vault.released_amount,
        vault_after_attempts(vault, attempts).approved_milestones >= vault.approved_milestones,
        vault_after_attempts(vault, attempts).authority == vault.authority,
        vault_after_attempts(vault, attempts).total_amount == vault.total_amount,
        vault_after_attempts(vault, attempts).milestone_count == vault.milestone_count,
        vault_after_attempts(vault, attempts).name == vault.name,
    decreases attempts.len(),
{
    if attempts.len() > 0 {
        let earlier = vault_after_attempts(vault, attempts.drop_last());
        let attempt = attempts.last();
        lemma_vault_invariant_holds_throughout(vault, attempts.drop_last());
        if release_failure(earlier, attempt.milestone, attempt.amount, attempt.outcome) is None {
            lemma_release_keeps_vault_invariant(earlier, attempt.milestone, attempt.amount);
        }
    }
}

/// The quorum gates the release. With fewer approvals than the threshold, and
/// so with one fewer, a release is refused for want of approvals, whatever
/// else holds. With exactly the threshold it goes through, provided that the
/// milestone is unreleased, the vault budgets for it and the transfer is
/// accepted.
pub proof fn lemma_quorum_gate(
    vault: VaultView,
    milestone: MilestoneView,
    amount: nat,
    outcome: TransferOutcome,
)
    ensures
        milestone.approval_count() < QUORUM_THRESHOLD <==> release_refusal(vault, milestone, amount)
            == Some(ErrorCode::InsufficientApprovals),
        milestone.approval_count() == QUORUM_THRESHOLD - 1 ==> release_failure(
            vault,
            milestone,
            amount,
            outcome,
        ) == Some(ErrorCode::InsufficientApprovals),
        milestone.approval_count() == QUORUM_THRESHOLD && !milestone.released
            && !vault.overflows_with(amount) && vault.budgets_for(milestone.index, amount)
            ==> release_refusal(vault, milestone, amount) is None && release_failure(
            vault,
            milestone,
            amount,
            TransferOutcome::Accepted,
        ) is None,
{
}

/// No milestone is released twice. Once a release has gone through, every
/// later release of the same milestone is refused as already released: for
/// whatever amount, whatever has happened to the vault in between, and
/// without the token-transfer service being asked.
pub proof fn lemma_no_double_release(
    vault: VaultView,
    milestone: MilestoneView,
    amount: nat,
    later_vault: VaultView,
    later_amount: nat,
    later_outcome: TransferOutcome,
)
    requires
        release_failure(vault, milestone, amount, TransferOutcome::Accepted) is None,
    ensures
        release_refusal(later_vault, milestone.after_release(), later_amount) == Some(
            ErrorCode::AlreadyReleased,
        ),
        release_failure(later_vault, milestone.after_release(), later_amount, later_outcome)
            == Some(ErrorCode::AlreadyReleased),
{
}

} // verus!
