use private_pass::error::ConfidentialError;
use private_pass::keys::{derive_keys, AccountId, SigningIdentity};
use private_pass::state::{account_balances, decrypt_balances, DecryptedBalances, StoredBalances};
use solana_keypair::Keypair;
use solana_pubkey::Pubkey;
use spl_token_2022::solana_zk_sdk::encryption::auth_encryption::AeKey;
use spl_token_2022::solana_zk_sdk::encryption::elgamal::ElGamalKeypair;

#[test]
fn decrypt_balances_combines_pending_parts() {
    let keys = derive_keys(
        &SigningIdentity { keypair: Keypair::new().to_bytes() },
        &AccountId { bytes: Pubkey::new_unique().to_bytes() },
    )
    .unwrap();
    let elgamal = ElGamalKeypair::try_from(&keys.elgamal.bytes[..]).unwrap();
    let aes = AeKey::from(keys.aes.bytes);
    let stored = StoredBalances {
        credits: 3,
        pending_lo: elgamal.pubkey().encrypt(7u64).to_bytes(),
        pending_hi: elgamal.pubkey().encrypt(2u64).to_bytes(),
        decryptable_available: aes.encrypt(1000).to_bytes(),
    };
    let balances = decrypt_balances(&stored, &keys).unwrap();
    assert_eq!(balances, DecryptedBalances { credits: 3, pending: 2 * 65536 + 7, available: 1000 });
}

#[test]
fn decrypt_balances_under_other_keys_fails() {
    let keys = derive_keys(
        &SigningIdentity { keypair: Keypair::new().to_bytes() },
        &AccountId { bytes: Pubkey::new_unique().to_bytes() },
    )
    .unwrap();
    let stored = StoredBalances {
        credits: 0,
        pending_lo: [0u8; 64],
        pending_hi: [0u8; 64],
        decryptable_available: AeKey::new_rand().encrypt(5).to_bytes(),
    };
    assert_eq!(decrypt_balances(&stored, &keys), Err(ConfidentialError::DecryptionFailure));
}

#[test]
fn balances_of_garbage_data_are_not_found() {
    let keys = derive_keys(
        &SigningIdentity { keypair: Keypair::new().to_bytes() },
        &AccountId { bytes: Pubkey::new_unique().to_bytes() },
    )
    .unwrap();
    assert_eq!(account_balances(&vec![9u8; 3], &keys), Err(ConfidentialError::AccountNotFound));
}
