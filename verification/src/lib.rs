//! Phased, quorum-gated disbursement of escrowed funds.
//!
//! A funder escrows a total budget in a vault that covers a fixed number of
//! milestones. A milestone's allotment leaves the vault only after a proof of
//! completion has been submitted for it and a quorum of distinct validators
//! has approved it, and it leaves the vault once.
//!
//! The library holds the records and the rules: every operation is one
//! transition that either commits in full or leaves the records as they were.
//! What surrounds it (storage of the records, authentication of the callers,
//! the token transfer itself, the event log) belongs to the host ledger.
//!
//! - [`identity`]: the identities under which the ledger knows the parties.
//! - [`vault`]: the vault record, its accounting invariant and its creation.
//! - [`milestone`]: the milestone record, proof submission and approvals.
//! - [`release`]: the release transition and the laws that it obeys.
//! - [`error`]: why a transition is refused.

pub mod error;
pub mod identity;
pub mod milestone;
pub mod release;
pub mod vault;

pub use error::ErrorCode;
pub use identity::Identity;
pub use milestone::{
    approve_milestone, submit_proof, ApproveMilestone, Milestone, MilestoneView, SubmitProof,
    QUORUM_THRESHOLD,
};
pub use release::{
    authorize_release, release_funds, MilestoneReleased, ReleaseFunds, TransferOrder,
    TransferOutcome,
};
pub use vault::{initialize_vault, InitializeVault, Vault, VaultView};
