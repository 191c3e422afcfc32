use civic_core::{
    approve_milestone, authorize_release, initialize_vault, release_funds, submit_proof,
    ApproveMilestone, ErrorCode, Identity, InitializeVault, Milestone, MilestoneReleased,
    ReleaseFunds, SubmitProof, TransferOrder, TransferOutcome, Vault,
};

fn id(tag: u8) -> Identity {
    Identity::new([tag; 32])
}

fn funded_vault(total_amount: u64, milestone_count: u8) -> Vault {
    let mut ctx = InitializeVault { vault: Vault::default(), authority: id(1) };
    let result = initialize_vault(&mut ctx, total_amount, milestone_count, String::from("bridge"));
    assert_eq!(result, Ok(()));
    ctx.vault
}

fn with_proof(milestone: Milestone, index: u8, proof: &str) -> Milestone {
    let mut ctx = SubmitProof { milestone, authority: id(2) };
    assert_eq!(submit_proof(&mut ctx, index, String::from(proof)), Ok(()));
    ctx.milestone
}

fn approved(milestone: Milestone, validators: &[u8]) -> Milestone {
    let mut milestone = milestone;
    for tag in validators {
        let mut ctx = ApproveMilestone { milestone, validator: id(*tag) };
        assert_eq!(approve_milestone(&mut ctx), Ok(()));
        milestone = ctx.milestone;
    }
    milestone
}

fn release_ctx(vault: Vault, milestone: Milestone) -> ReleaseFunds {
    ReleaseFunds {
        vault,
        milestone,
        vault_key: id(100),
        vault_token_account: id(101),
        recipient_token_account: id(102),
    }
}

#[test]
fn release_succeeds_once_and_the_second_call_is_refused() {
    let vault = funded_vault(1000, 2);
    let milestone = approved(with_proof(Milestone::default(), 0, "h1"), &[10, 11, 12]);
    let mut ctx = release_ctx(vault, milestone);

    assert_eq!(
        authorize_release(&ctx, 400),
        Ok(TransferOrder { from: id(101), to: id(102), authority: id(100), amount: 400 })
    );
    let event = release_funds(&mut ctx, 400, TransferOutcome::Accepted);
    assert_eq!(event, Ok(MilestoneReleased { vault: id(100), milestone_index: 0, amount: 400 }));
    assert_eq!(ctx.vault.released_amount, 400);
    assert_eq!(ctx.vault.approved_milestones, 1);
    assert!(ctx.milestone.released);
    assert_eq!(ctx.milestone.proof_hash, "h1");

    let after_first = ctx.clone();
    assert_eq!(authorize_release(&ctx, 400), Err(ErrorCode::AlreadyReleased));
    assert_eq!(
        release_funds(&mut ctx, 400, TransferOutcome::Accepted),
        Err(ErrorCode::AlreadyReleased)
    );
    assert_eq!(ctx.vault.released_amount, 400);
    assert_eq!(ctx, after_first);
}

#[test]
fn release_past_the_total_is_refused_as_over_budget() {
    let vault = funded_vault(1000, 2);
    let first = approved(with_proof(Milestone::default(), 0, "h1"), &[10, 11, 12]);
    let mut ctx = release_ctx(vault, first);
    assert!(release_funds(&mut ctx, 400, TransferOutcome::Accepted).is_ok());

    let second = approved(with_proof(Milestone::default(), 1, "h2"), &[10, 11, 12]);
    let mut ctx = release_ctx(ctx.vault, second);
    let before = ctx.clone();
    assert_eq!(authorize_release(&ctx, 700), Err(ErrorCode::BudgetExceeded));
    assert_eq!(
        release_funds(&mut ctx, 700, TransferOutcome::Accepted),
        Err(ErrorCode::BudgetExceeded)
    );
    assert_eq!(ctx.vault.released_amount, 400);
    assert_eq!(ctx.vault.approved_milestones, 1);
    assert!(!ctx.milestone.released);
    assert_eq!(ctx, before);
}

#[test]
fn both_milestones_release_within_the_total() {
    let vault = funded_vault(1000, 2);
    let first = approved(with_proof(Milestone::default(), 0, "h1"), &[10, 11, 12]);
    let mut ctx = release_ctx(vault, first);
    assert!(release_funds(&mut ctx, 400, TransferOutcome::Accepted).is_ok());

    let second = approved(with_proof(Milestone::default(), 1, "h2"), &[20, 21, 22, 23]);
    let mut ctx = release_ctx(ctx.vault, second);
    assert_eq!(
        release_funds(&mut ctx, 600, TransferOutcome::Accepted),
        Ok(MilestoneReleased { vault: id(100), milestone_index: 1, amount: 600 })
    );
    assert_eq!(ctx.vault.released_amount, 1000);
    assert_eq!(ctx.vault.total_amount, 1000);
    assert_eq!(ctx.vault.approved_milestones, 2);
    assert_eq!(ctx.vault.milestone_count, 2);
    assert!(ctx.vault.released_amount <= ctx.vault.total_amount);
    assert!(ctx.vault.approved_milestones <= ctx.vault.milestone_count);
}
