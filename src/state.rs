use vstd::prelude::*;
use crate::error::ConfidentialError;
use crate::keys::{ae_decryption_of, EncryptionKeyPair};
use crate::proofs::{holds_confidential_account, read_confidential_account};
use spl_token_2022::extension::confidential_transfer::ConfidentialTransferAccount;
use spl_token_2022::solana_zk_sdk::encryption::auth_encryption::{AeCiphertext, AeKey};
use spl_token_2022::solana_zk_sdk::encryption::elgamal::{ElGamalCiphertext, ElGamalKeypair};

verus! {

/// The encrypted balances of a confidential account, as bytes: the pending
/// balance in a low part (16 bits) and a high part, both ElGamal ciphertexts,
/// and the available balance as the holder's authenticated ciphertext.
#[derive(Clone, Copy, Debug)]
pub struct StoredBalances {
    pub credits: u64,
    pub pending_lo: [u8; 64],
    pub pending_hi: [u8; 64],
    pub decryptable_available: [u8; 36],
}

/// The plaintext balances of a confidential account.
#[derive(Clone, Copy, Debug, PartialEq, Eq, Structural)]
pub struct DecryptedBalances {
    pub credits: u64,
    pub pending: u64,
    pub available: u64,
}

/// The amount, below 2^32, that an ElGamal ciphertext encrypts under a keypair,
/// or nothing when the keypair or ciphertext is malformed or the amount is
/// out of that range.
pub uninterp spec fn elgamal_u32_of(keypair: Seq<u8>, ciphertext: Seq<u8>) -> Option<u64>;

/// Relies on `ElGamalSecretKey::decrypt_u32`, after reading the keypair and the
/// ciphertext from their bytes: a discrete logarithm within 32 bits, which
/// depends on the key and the ciphertext alone.
#[verifier::external_body]
fn elgamal_decrypt_u32(keypair: &[u8; 64], ciphertext: &[u8; 64]) -> (r: Option<u64>)
    ensures
        r == elgamal_u32_of(keypair@, ciphertext@),
{
    let keypair = ElGamalKeypair::try_from(&keypair[..]).ok()?;
    keypair.secret().decrypt_u32(&ElGamalCiphertext::from_bytes(ciphertext)?)
}

/// Relies on the `TryFrom` conversions of the account's pod ciphertexts and on
/// `PodU64` into `u64`: the stored balances as bytes, or none when a stored
/// ciphertext is malformed.
#[verifier::external_body]
fn stored_balances(state: &ConfidentialTransferAccount) -> (r: Option<StoredBalances>) {
    Some(StoredBalances {
        credits: state.pending_balance_credit_counter.into(),
        pending_lo: ElGamalCiphertext::try_from(state.pending_balance_lo).ok()?.to_bytes(),
        pending_hi: ElGamalCiphertext::try_from(state.pending_balance_hi).ok()?.to_bytes(),
        decryptable_available: AeCiphertext::try_from(state.decryptable_available_balance).ok()?
            .to_bytes(),
    })
}

/// Reads the stored balances of a confidential account.
pub fn read_stored_balances(state: &ConfidentialTransferAccount) -> (r: Result<
    StoredBalances,
    ConfidentialError,
>)
    ensures
        r matches Err(e) ==> e == ConfidentialError::DecryptionFailure,
{
    match stored_balances(state) {
        Some(b) => Ok(b),
        None => Err(ConfidentialError::DecryptionFailure),
    }
}

/// The pending balance that a low and a high part make: `hi * 2^16 + lo`.
pub open spec fn combined_pending(lo: u64, hi: u64) -> int {
    hi * 65536 + lo
}

/// Decrypts stored balances with the account's keys. The pending parts
/// decrypt under the ElGamal keypair, the available balance under the
/// symmetric key; a pending balance beyond `u64::MAX` is an overflow.
pub fn decrypt_balances(stored: &StoredBalances, keys: &EncryptionKeyPair) -> (r: Result<
    DecryptedBalances,
    ConfidentialError,
>)
    ensures
        ({
            let lo = elgamal_u32_of(keys.elgamal.bytes@, stored.pending_lo@);
            let hi = elgamal_u32_of(keys.elgamal.bytes@, stored.pending_hi@);
            let av = ae_decryption_of(keys.aes.bytes@, stored.decryptable_available@);
            &&& (lo is None || hi is None || av is None) ==> r == Err::<
                DecryptedBalances,
                ConfidentialError,
            >(ConfidentialError::DecryptionFailure)
            &&& (lo is Some && hi is Some && av is Some && combined_pending(lo->0, hi->0) > u64::MAX)
                ==> r == Err::<DecryptedBalances, ConfidentialError>(
                ConfidentialError::BalanceOverflow,
            )
            &&& (lo is Some && hi is Some && av is Some && combined_pending(lo->0, hi->0)
                <= u64::MAX) ==> r == Ok::<DecryptedBalances, ConfidentialError>(
                DecryptedBalances {
                    credits: stored.credits,
                    pending: combined_pending(lo->0, hi->0) as u64,
                    available: av->0,
                },
            )
        }),
{
    let lo = elgamal_decrypt_u32(&keys.elgamal.bytes, &stored.pending_lo);
    let hi = elgamal_decrypt_u32(&keys.elgamal.bytes, &stored.pending_hi);
    let av = crate::keys::decrypt_balance(&keys.aes, &stored.decryptable_available);
    match (lo, hi, av) {
        (Some(lo), Some(hi), Ok(av)) => {
            if hi > (u64::MAX - lo) / 65536 {
                proof {
                    assert(hi * 65536 + lo > u64::MAX) by (nonlinear_arith)
                        requires
                            hi > (u64::MAX - lo) / 65536,
                            lo <= u64::MAX,
                    ;
                }
                return Err(ConfidentialError::BalanceOverflow);
            }
            proof {
                assert(hi * 65536 + lo <= u64::MAX) by (nonlinear_arith)
                    requires
                        hi <= (u64::MAX - lo) / 65536,
                        lo <= u64::MAX,
                ;
            }
            Ok(DecryptedBalances { credits: stored.credits, pending: hi * 65536 + lo, available: av })
        },
        _ => Err(ConfidentialError::DecryptionFailure),
    }
}

/// Reads and decrypts the balances of a confidential account from its raw data.
pub fn account_balances(data: &Vec<u8>, keys: &EncryptionKeyPair) -> (r: Result<
    DecryptedBalances,
    ConfidentialError,
>)
    ensures
        !holds_confidential_account(data@) ==> r == Err::<DecryptedBalances, ConfidentialError>(
            ConfidentialError::AccountNotFound,
        ),
        r matches Err(e) ==> e == ConfidentialError::AccountNotFound || e
            == ConfidentialError::DecryptionFailure || e == ConfidentialError::BalanceOverflow,
{
    let state = read_confidential_account(data)?;
    let stored = read_stored_balances(&state)?;
    decrypt_balances(&stored, keys)
}

} // verus!
