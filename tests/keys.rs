use private_pass::error::ConfidentialError;
use private_pass::keys::{
    decrypt_balance, derive_keys, generate_aes_key, generate_elgamal_keypair, AccountId, AesKey,
    SigningIdentity,
};
use solana_keypair::Keypair;
use solana_pubkey::Pubkey;
use spl_token_2022::solana_zk_sdk::encryption::auth_encryption::AeKey;

fn identity() -> SigningIdentity {
    SigningIdentity { keypair: Keypair::new().to_bytes() }
}

fn account() -> AccountId {
    AccountId { bytes: Pubkey::new_unique().to_bytes() }
}

#[test]
fn test_key_generation() {
    let wallet = identity();
    let token_account = account();

    let elgamal_result = generate_elgamal_keypair(&wallet, &token_account);
    assert!(elgamal_result.is_ok());

    let aes_result = generate_aes_key(&wallet, &token_account);
    assert!(aes_result.is_ok());
}

#[test]
fn test_deterministic_keys() {
    let wallet = identity();
    let token_account = account();

    let elgamal1 = generate_elgamal_keypair(&wallet, &token_account).unwrap();
    let elgamal2 = generate_elgamal_keypair(&wallet, &token_account).unwrap();

    assert_eq!(elgamal1.pubkey(), elgamal2.pubkey());
}

#[test]
fn derive_keys_twice_is_identical() {
    let wallet = identity();
    let token_account = account();
    let a = derive_keys(&wallet, &token_account).unwrap();
    let b = derive_keys(&wallet, &token_account).unwrap();
    assert_eq!(a.elgamal.bytes, b.elgamal.bytes);
    assert_eq!(a.aes.bytes, b.aes.bytes);
}

#[test]
fn distinct_accounts_give_distinct_keys() {
    let wallet = identity();
    let a = derive_keys(&wallet, &account()).unwrap();
    let b = derive_keys(&wallet, &account()).unwrap();
    assert_ne!(a.elgamal.bytes, b.elgamal.bytes);
    assert_ne!(a.aes.bytes, b.aes.bytes);
}

#[test]
fn derived_keys_are_not_the_inputs() {
    let wallet = identity();
    let token_account = account();
    let keys = derive_keys(&wallet, &token_account).unwrap();
    assert_ne!(keys.elgamal.pubkey(), token_account.bytes);
    assert_ne!(keys.aes.bytes, [0u8; 16]);
    assert_ne!(keys.elgamal.bytes[..], wallet.keypair[..]);
}

#[test]
fn mismatched_signer_bytes_fail_derivation() {
    let mut bytes = Keypair::new().to_bytes();
    bytes[40] ^= 0xff;
    let wallet = SigningIdentity { keypair: bytes };
    let r = derive_keys(&wallet, &account());
    assert_eq!(r.err(), Some(ConfidentialError::KeyDerivationFailure));
}

#[test]
fn decrypt_balance_recovers_amount() {
    let key = AeKey::new_rand();
    let ciphertext = key.encrypt(1234).to_bytes();
    let aes = AesKey { bytes: key.into() };
    assert_eq!(decrypt_balance(&aes, &ciphertext), Ok(1234));
}

#[test]
fn decrypt_balance_under_wrong_key_fails() {
    let key = AeKey::new_rand();
    let ciphertext = key.encrypt(5).to_bytes();
    let other = AesKey { bytes: AeKey::new_rand().into() };
    assert_eq!(decrypt_balance(&other, &ciphertext), Err(ConfidentialError::DecryptionFailure));
}
