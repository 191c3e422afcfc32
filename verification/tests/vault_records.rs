use civic_core::{initialize_vault, ErrorCode, Identity, InitializeVault, Vault};

#[test]
fn a_blank_vault_holds_nothing() {
    let vault = Vault::default();
    assert_eq!(vault.authority, Identity::new([0; 32]));
    assert_eq!(vault.authority, Identity::default());
    assert_eq!(vault.total_amount, 0);
    assert_eq!(vault.released_amount, 0);
    assert_eq!(vault.milestone_count, 0);
    assert_eq!(vault.approved_milestones, 0);
    assert_eq!(vault.name, "");
}

#[test]
fn initialize_vault_fills_every_field() {
    let funder = Identity::new([7; 32]);
    let mut ctx = InitializeVault { vault: Vault::default(), authority: funder };
    let result = initialize_vault(&mut ctx, 1000, 2, String::from("school roof"));
    assert_eq!(result, Ok(()));
    assert_eq!(
        ctx.vault,
        Vault {
            authority: funder,
            total_amount: 1000,
            released_amount: 0,
            milestone_count: 2,
            approved_milestones: 0,
            name: String::from("school roof"),
        }
    );
    assert_eq!(ctx.authority, funder);
}

#[test]
fn initialize_vault_resets_the_running_totals() {
    let funder = Identity::new([9; 32]);
    let stale = Vault {
        authority: Identity::new([1; 32]),
        total_amount: 5,
        released_amount: 4,
        milestone_count: 9,
        approved_milestones: 8,
        name: String::from("old"),
    };
    let mut ctx = InitializeVault { vault: stale, authority: funder };
    assert_eq!(initialize_vault(&mut ctx, u64::MAX, 255, String::new()), Ok(()));
    assert_eq!(ctx.vault.authority, funder);
    assert_eq!(ctx.vault.total_amount, u64::MAX);
    assert_eq!(ctx.vault.released_amount, 0);
    assert_eq!(ctx.vault.milestone_count, 255);
    assert_eq!(ctx.vault.approved_milestones, 0);
    assert_eq!(ctx.vault.name, "");
}

#[test]
fn initialize_vault_accepts_an_empty_budget_and_a_single_milestone() {
    let mut ctx = InitializeVault { vault: Vault::default(), authority: Identity::new([3; 32]) };
    assert_eq!(initialize_vault(&mut ctx, 0, 1, String::from("n")), Ok(()));
    assert_eq!(ctx.vault.total_amount, 0);
    assert_eq!(ctx.vault.milestone_count, 1);
}

#[test]
fn identities_are_equal_exactly_when_their_bytes_are() {
    let a = Identity::new([5; 32]);
    let mut bytes = [5u8; 32];
    assert!(a.same_as(&Identity::new(bytes)));
    assert!(a.same_as(&a));
    bytes[31] = 6;
    assert!(!a.same_as(&Identity::new(bytes)));
    assert!(!Identity::new(bytes).same_as(&a));
    bytes[31] = 5;
    bytes[0] = 4;
    assert!(!a.same_as(&Identity::new(bytes)));
    bytes[0] = 5;
    bytes[17] = 0;
    assert!(!a.same_as(&Identity::new(bytes)));
    assert_eq!(Identity::new([5; 32]).bytes, [5u8; 32]);
}

#[test]
fn each_refusal_has_its_message() {
    assert_eq!(ErrorCode::AlreadyReleased.message(), "Milestone already released.");
    assert_eq!(ErrorCode::InsufficientApprovals.message(), "Minimum of 3 approvals required.");
    assert_eq!(ErrorCode::AccountingOverflow.message(), "Released total would overflow.");
    assert_eq!(ErrorCode::BudgetExceeded.message(), "Release would exceed the vault budget.");
    assert_eq!(ErrorCode::TransferFailed.message(), "Token transfer failed.");
}
