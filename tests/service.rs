use private_pass::error::ConfidentialError;
use private_pass::identifiers::{associated_token_account, parse_address, parse_elgamal_pubkey};
use private_pass::keys::{derive_keys, AccountId, SigningIdentity};
use private_pass::models::{DepositRequest, GenerateProofRequest, TransferRequest, WithdrawRequest};
use private_pass::service::{
    deposit_response, eligibility_response, prepare_deposit, prepare_transfer, prepare_withdraw,
    transfer_response,
};
use solana_keypair::Keypair;
use solana_pubkey::Pubkey;

fn identity() -> SigningIdentity {
    SigningIdentity { keypair: Keypair::new().to_bytes() }
}

#[test]
fn parse_address_round_trips() {
    let key = Pubkey::new_unique();
    let parsed = parse_address(&key.to_string()).unwrap();
    assert_eq!(parsed.bytes, key.to_bytes());
}

#[test]
fn parse_address_rejects_malformed_text() {
    assert_eq!(parse_address(&"not-an-address".to_string()), Err(ConfidentialError::InvalidIdentifier));
    assert_eq!(parse_address(&"".to_string()), Err(ConfidentialError::InvalidIdentifier));
}

#[test]
fn parse_elgamal_pubkey_accepts_derived_key() {
    let keys = derive_keys(&identity(), &AccountId { bytes: Pubkey::new_unique().to_bytes() }).unwrap();
    let text = bs58::encode(keys.elgamal.pubkey()).into_string();
    assert_eq!(parse_elgamal_pubkey(&text), Ok(keys.elgamal.pubkey()));
}

#[test]
fn parse_elgamal_pubkey_rejects_wrong_length() {
    let text = bs58::encode([7u8; 31]).into_string();
    assert_eq!(parse_elgamal_pubkey(&text), Err(ConfidentialError::InvalidIdentifier));
    assert_eq!(parse_elgamal_pubkey(&"0OIl".to_string()), Err(ConfidentialError::InvalidIdentifier));
}

#[test]
fn associated_account_is_derived_from_wallet_and_mint() {
    let wallet = Pubkey::new_unique();
    let mint = Pubkey::new_unique();
    let derived = associated_token_account(
        &AccountId { bytes: wallet.to_bytes() },
        &AccountId { bytes: mint.to_bytes() },
    );
    assert_ne!(derived.bytes, wallet.to_bytes());
    assert_ne!(derived.bytes, mint.to_bytes());
    let again = associated_token_account(
        &AccountId { bytes: wallet.to_bytes() },
        &AccountId { bytes: mint.to_bytes() },
    );
    assert_eq!(derived, again);
}

#[test]
fn deposit_request_parses() {
    let wallet = Pubkey::new_unique();
    let account = Pubkey::new_unique();
    let request = DepositRequest {
        wallet_address: wallet.to_string(),
        token_account: account.to_string(),
        amount: 100,
        decimals: 0,
    };
    let plan = prepare_deposit(&request).unwrap();
    assert_eq!(plan.wallet.bytes, wallet.to_bytes());
    assert_eq!(plan.token_account.bytes, account.to_bytes());
    assert_eq!(plan.amount, 100);
    assert_eq!(plan.decimals, 0);
}

#[test]
fn transfer_with_bad_identifier_is_rejected() {
    let request = TransferRequest {
        sender_wallet: Pubkey::new_unique().to_string(),
        sender_token_account: "bad".to_string(),
        recipient_token_account: Pubkey::new_unique().to_string(),
        recipient_elgamal_pubkey: "bad".to_string(),
        amount: 1,
    };
    let r = prepare_transfer(&request, &identity(), &vec![]);
    assert_eq!(r.err(), Some(ConfidentialError::InvalidIdentifier));
}

#[test]
fn transfer_without_confidential_account_is_not_found() {
    let recipient = derive_keys(&identity(), &AccountId { bytes: Pubkey::new_unique().to_bytes() }).unwrap();
    let request = TransferRequest {
        sender_wallet: Pubkey::new_unique().to_string(),
        sender_token_account: Pubkey::new_unique().to_string(),
        recipient_token_account: Pubkey::new_unique().to_string(),
        recipient_elgamal_pubkey: bs58::encode(recipient.elgamal.pubkey()).into_string(),
        amount: u64::MAX,
    };
    let r = prepare_transfer(&request, &identity(), &vec![0u8; 10]);
    assert_eq!(r.err(), Some(ConfidentialError::AccountNotFound));
}

#[test]
fn eligibility_response_text_is_the_attestation() {
    let request = GenerateProofRequest {
        wallet_address: "w".to_string(),
        token_account: "a".to_string(),
        threshold: 0,
    };
    let r = eligibility_response(&request, 0);
    assert!(r.proof.starts_with("proof:eligible:0:0:"));
}

#[test]
fn withdraw_with_bad_identifier_is_rejected() {
    let request = WithdrawRequest {
        wallet_address: "x".to_string(),
        token_account: Pubkey::new_unique().to_string(),
        amount: 1,
        decimals: 0,
    };
    let r = prepare_withdraw(&request, &identity(), &vec![]);
    assert_eq!(r.err(), Some(ConfidentialError::InvalidIdentifier));
}

#[test]
fn responses_report_only_confirmed_operations() {
    let ok = deposit_response(Ok("sig".to_string()));
    assert!(ok.success);
    assert_eq!(ok.signature, "sig");
    assert_eq!(ok.error, None);
    let failed = transfer_response(Err(ConfidentialError::ContextCreationFailed {
        index: 1,
        message: "boom".to_string(),
    }));
    assert!(!failed.success);
    assert_eq!(failed.signature, "");
    assert_eq!(failed.error, Some("proof context creation failed: boom".to_string()));
}

#[test]
fn error_descriptions_and_classes() {
    assert_eq!(ConfidentialError::AmountOutOfRange.describe(), "amount out of range");
    assert!(ConfidentialError::InvalidIdentifier.is_client_error());
    assert!(ConfidentialError::AccountNotFound.is_client_error());
    assert!(!ConfidentialError::ProofGenerationFailure.is_client_error());
}

#[test]
fn eligibility_response_lists_public_inputs() {
    let request = GenerateProofRequest {
        wallet_address: "wallet".to_string(),
        token_account: "account".to_string(),
        threshold: 50,
    };
    let r = eligibility_response(&request, 100);
    assert!(r.success);
    assert!(r.eligible);
    assert_eq!(r.public_inputs, vec!["wallet".to_string(), "50".to_string()]);
    assert!(r.proof.starts_with("proof:eligible:100:50:"));
    let r = eligibility_response(&request, 30);
    assert!(!r.eligible);
    assert_eq!(r.proof, "proof:ineligible");
}

#[test]
fn parse_elgamal_pubkey_rejects_non_point() {
    let text = bs58::encode([0xffu8; 32]).into_string();
    assert_eq!(parse_elgamal_pubkey(&text), Err(ConfidentialError::InvalidIdentifier));
}
