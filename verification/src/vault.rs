//! The vault record: the escrowed budget and the running account of what
//! has been released from it.

use vstd::prelude::*;
use crate::error::ErrorCode;
use crate::identity::Identity;

verus! {

/// What a vault record holds, as mathematical values.
pub struct VaultView {
    pub authority: Identity,
    pub total_amount: nat,
    pub released_amount: nat,
    pub milestone_count: nat,
    pub approved_milestones: nat,
    pub name: Seq<char>,
}

impl VaultView {
    /// The accounting invariant of a vault: no more has been released than
    /// was escrowed, and no more milestones than the vault has.
    pub open spec fn wf(self) -> bool {
        &&& self.released_amount <= self.total_amount
        &&& self.approved_milestones <= self.milestone_count
    }

    /// The record of a vault that has just been funded: nothing released yet.
    pub open spec fn funded(
        authority: Identity,
        total_amount: nat,
        milestone_count: nat,
        name: Seq<char>,
    ) -> VaultView {
        VaultView {
            authority,
            total_amount,
            released_amount: 0,
            milestone_count,
            approved_milestones: 0,
            name,
        }
    }

    /// Whether a release of `amount` would take the running total out of the
    /// range of the accounting integer.
    pub open spec fn overflows_with(self, amount: nat) -> bool {
        self.released_amount + amount > u64::MAX
    }

    /// Whether the vault budgets for a release of `amount` to the milestone
    /// at `index`: the amount is still in the escrow, the index is one of the
    /// vault's, and not all of its milestones have been released.
    pub open spec fn budgets_for(self, index: nat, amount: nat) -> bool {
        &&& self.released_amount + amount <= self.total_amount
        &&& index < self.milestone_count
        &&& self.approved_milestones < self.milestone_count
    }

    /// The record after one more milestone has been released for `amount`.
    pub open spec fn after_release(self, amount: nat) -> VaultView {
        VaultView {
            released_amount: self.released_amount + amount,
            approved_milestones: self.approved_milestones + 1,
            ..self
        }
    }
}

/// The aggregate record of one escrow: the total budget, what has been
/// released from it so far, and how many milestones it covers.
#[derive(Debug, PartialEq, Eq)]
pub struct Vault {
    /// The funder who controls the vault.
    pub authority: Identity,
    /// The escrowed budget.
    pub total_amount: u64,
    /// The sum of all releases so far.
    pub released_amount: u64,
    /// The number of milestones; their indices are `0..milestone_count`.
    pub milestone_count: u8,
    /// The number of milestones released so far.
    pub approved_milestones: u8,
    /// A label without effect.
    pub name: String,
}

impl View for Vault {
    type V = VaultView;

    open spec fn view(&self) -> VaultView {
        VaultView {
            authority: self.authority,
            total_amount: self.total_amount as nat,
            released_amount: self.released_amount as nat,
            milestone_count: self.milestone_count as nat,
            approved_milestones: self.approved_milestones as nat,
            name: self.name@,
        }
    }
}

impl Clone for Vault {
    fn clone(&self) -> (copy: Vault)
        ensures
            copy@ == self@,
    {
        Vault {
            authority: self.authority,
            total_amount: self.total_amount,
            released_amount: self.released_amount,
            milestone_count: self.milestone_count,
            approved_milestones: self.approved_milestones,
            name: self.name.clone(),
        }
    }
}

impl Default for Vault {
    /// A record that no funder has filled yet: every number is zero and the
    /// name is empty.
    fn default() -> (vault: Vault)
        ensures
            vault.authority.is_zero(),
            vault@ == VaultView::funded(vault.authority, 0, 0, Seq::empty()),
    {
        Vault {
            authority: Identity::default(),
            total_amount: 0,
            released_amount: 0,
            milestone_count: 0,
            approved_milestones: 0,
            name: String::new(),
        }
    }
}

/// The record and the signer that the creation of a vault works on.
#[derive(Debug, PartialEq, Eq)]
pub struct InitializeVault {
    /// The record to fill.
    pub vault: Vault,
    /// The funder who creates the vault.
    pub authority: Identity,
}

impl Clone for InitializeVault {
    fn clone(&self) -> (copy: InitializeVault)
        ensures
            copy.vault@ == self.vault@,
            copy.authority == self.authority,
    {
        InitializeVault { vault: self.vault.clone(), authority: self.authority }
    }
}

/// Fills the vault record for a funder who escrows `total_amount` for
/// `milestone_count` milestones. Nothing has been released yet.
pub fn initialize_vault(
    ctx: &mut InitializeVault,
    total_amount: u64,
    milestone_count: u8,
    name: String,
) -> (result: Result<(), ErrorCode>)
    requires
        milestone_count > 0,
    ensures
        result is Ok,
        final(ctx).vault@ == VaultView::funded(
            old(ctx).authority,
            total_amount as nat,
            milestone_count as nat,
            name@,
        ),
        final(ctx).authority == old(ctx).authority,
        final(ctx).vault@.wf(),
{
    ctx.vault.authority = ctx.authority;
    ctx.vault.total_amount = total_amount;
    ctx.vault.released_amount = 0;
    ctx.vault.milestone_count = milestone_count;
    ctx.vault.approved_milestones = 0;
    ctx.vault.name = name;
    Ok(())
}

} // verus!
