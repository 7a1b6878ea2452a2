use private_pass::error::ConfidentialError;
use private_pass::instructions::{
    account_config_instructions, apply_pending_instructions, context_close_instruction,
    context_creation_instruction, deposit_instructions, token_account_mint,
};
use private_pass::keys::{AccountId, SigningIdentity};
use private_pass::models::{ApplyPendingRequest, CreateAccountRequest, DepositRequest};
use private_pass::service::{prepare_account_config, prepare_apply_pending, prepare_deposit};
use private_pass::state::DecryptedBalances;
use solana_keypair::Keypair;
use solana_pubkey::Pubkey;

fn identity() -> SigningIdentity {
    SigningIdentity { keypair: Keypair::new().to_bytes() }
}

fn new_id() -> AccountId {
    AccountId { bytes: Pubkey::new_unique().to_bytes() }
}

#[test]
fn mint_of_garbage_data_is_not_found() {
    assert_eq!(token_account_mint(&vec![0u8; 5]), Err(ConfidentialError::AccountNotFound));
}

#[test]
fn account_config_stages_one_context_and_builds_its_operation() {
    let request = CreateAccountRequest {
        wallet_address: Pubkey::new_unique().to_string(),
        mint_address: Pubkey::new_unique().to_string(),
    };
    let plan = prepare_account_config(&request, &identity()).unwrap();
    assert_eq!(plan.bundle.len(), 1);
    let context = new_id();
    let payer = new_id();
    let create = context_creation_instruction(&plan.bundle.proofs[0], &context, &payer);
    assert_eq!(create.accounts[0].pubkey.to_bytes(), context.bytes);
    let ops = account_config_instructions(&plan, &payer, &context).unwrap();
    assert_eq!(ops.len(), 3);
    assert!(ops.iter().any(|ix| ix.program_id == spl_token_2022::id()));
}

#[test]
fn close_instruction_targets_the_context() {
    let context = new_id();
    let authority = new_id();
    let destination = new_id();
    let ix = context_close_instruction(&context, &authority, &destination);
    assert_eq!(ix.accounts[0].pubkey.to_bytes(), context.bytes);
    assert_eq!(ix.accounts[1].pubkey.to_bytes(), destination.bytes);
    assert_eq!(ix.accounts[2].pubkey.to_bytes(), authority.bytes);
}

#[test]
fn deposit_instruction_addresses_the_token_program() {
    let request = DepositRequest {
        wallet_address: Pubkey::new_unique().to_string(),
        token_account: Pubkey::new_unique().to_string(),
        amount: 100,
        decimals: 0,
    };
    let plan = prepare_deposit(&request).unwrap();
    let ix = deposit_instructions(&plan, &new_id()).unwrap();
    assert_eq!(ix.program_id, spl_token_2022::id());
    assert_eq!(ix.accounts[0].pubkey.to_bytes(), plan.token_account.bytes);
}

fn apply_plan() -> private_pass::service::ApplyPendingPlan {
    let request = ApplyPendingRequest {
        wallet_address: Pubkey::new_unique().to_string(),
        token_account: Pubkey::new_unique().to_string(),
    };
    prepare_apply_pending(&request, &identity()).unwrap()
}

#[test]
fn apply_without_pending_credits_submits_nothing() {
    let balances = DecryptedBalances { credits: 0, pending: 0, available: 5 };
    let r = apply_pending_instructions(&apply_plan(), &balances);
    assert!(matches!(r, Ok(None)));
}

#[test]
fn apply_with_credits_builds_the_instruction() {
    let plan = apply_plan();
    let balances = DecryptedBalances { credits: 2, pending: 40, available: 60 };
    let ix = apply_pending_instructions(&plan, &balances).unwrap().unwrap();
    assert_eq!(ix.program_id, spl_token_2022::id());
    assert_eq!(ix.accounts[0].pubkey.to_bytes(), plan.token_account.bytes);
}

#[test]
fn apply_that_would_overflow_is_rejected() {
    let balances = DecryptedBalances { credits: 1, pending: 1, available: u64::MAX };
    let r = apply_pending_instructions(&apply_plan(), &balances);
    assert_eq!(r.err(), Some(ConfidentialError::BalanceOverflow));
}
