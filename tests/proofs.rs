use private_pass::error::ConfidentialError;
use private_pass::keys::{derive_keys, generate_elgamal_keypair, AccountId, SigningIdentity};
use private_pass::proofs::{
    generate_pubkey_validity_proof, generate_transfer_proof, generate_withdraw_proof,
    read_confidential_account, OperationKind, SubProofKind, MAX_TRANSFER_AMOUNT,
};
use solana_keypair::Keypair;
use solana_pubkey::Pubkey;
use spl_token_2022::extension::confidential_transfer::ConfidentialTransferAccount;

fn identity() -> SigningIdentity {
    SigningIdentity { keypair: Keypair::new().to_bytes() }
}

fn account() -> AccountId {
    AccountId { bytes: Pubkey::new_unique().to_bytes() }
}

#[test]
fn test_pubkey_validity_proof() {
    let keypair = identity();
    let token_account = account();
    let elgamal = generate_elgamal_keypair(&keypair, &token_account).unwrap();

    let proof_result = generate_pubkey_validity_proof(&elgamal);
    assert!(proof_result.is_ok());
}

#[test]
fn account_config_bundle_has_one_sub_proof() {
    let elgamal = generate_elgamal_keypair(&identity(), &account()).unwrap();
    let bundle = generate_pubkey_validity_proof(&elgamal).unwrap();
    assert_eq!(bundle.kind, OperationKind::AccountConfig);
    assert_eq!(bundle.len(), 1);
    assert_eq!(bundle.kinds(), vec![SubProofKind::PubkeyValidity]);
}

#[test]
fn transfer_beyond_range_is_rejected_before_proving() {
    let keys = derive_keys(&identity(), &account()).unwrap();
    let recipient = derive_keys(&identity(), &account()).unwrap();
    let state = ConfidentialTransferAccount::default();
    let r = generate_transfer_proof(
        &state,
        MAX_TRANSFER_AMOUNT + 1,
        &keys.elgamal,
        &keys.aes,
        &recipient.elgamal.pubkey(),
        None,
    );
    assert_eq!(r.err(), Some(ConfidentialError::AmountOutOfRange));
    let r = generate_transfer_proof(
        &state,
        u64::MAX,
        &keys.elgamal,
        &keys.aes,
        &recipient.elgamal.pubkey(),
        None,
    );
    assert_eq!(r.err(), Some(ConfidentialError::AmountOutOfRange));
}

#[test]
fn transfer_from_undecryptable_state_fails_to_prove() {
    let keys = derive_keys(&identity(), &account()).unwrap();
    let recipient = derive_keys(&identity(), &account()).unwrap();
    let state = ConfidentialTransferAccount::default();
    let r = generate_transfer_proof(&state, 10, &keys.elgamal, &keys.aes, &recipient.elgamal.pubkey(), None);
    assert_eq!(r.err(), Some(ConfidentialError::ProofGenerationFailure));
}

#[test]
fn withdraw_from_undecryptable_state_fails_to_prove() {
    let keys = derive_keys(&identity(), &account()).unwrap();
    let state = ConfidentialTransferAccount::default();
    let r = generate_withdraw_proof(&state, 10, &keys.elgamal, &keys.aes);
    assert_eq!(r.err(), Some(ConfidentialError::ProofGenerationFailure));
}

#[test]
fn garbage_account_data_is_not_an_account() {
    let r = read_confidential_account(&vec![1u8, 2, 3]);
    assert_eq!(r.err(), Some(ConfidentialError::AccountNotFound));
}
