use vstd::prelude::*;
use crate::error::ConfidentialError;
use spl_token_2022::solana_zk_sdk::encryption::auth_encryption::{AeCiphertext, AeKey};
use spl_token_2022::solana_zk_sdk::encryption::elgamal::ElGamalKeypair;

verus! {

/// A holder's signing capability: an ed25519 keypair as its 64 bytes
/// (secret key followed by public key).
#[derive(Clone, Copy, Debug)]
pub struct SigningIdentity {
    pub keypair: [u8; 64],
}

/// A 32-byte ledger account address.
#[derive(Clone, Copy, Debug, PartialEq, Eq)]
pub struct AccountId {
    pub bytes: [u8; 32],
}

/// An ElGamal keypair as its 64 bytes (public key followed by secret key).
#[derive(Clone, Copy, Debug)]
pub struct ElGamalKeys {
    pub bytes: [u8; 64],
}

/// A 16-byte authenticated-encryption key.
#[derive(Clone, Copy, Debug)]
pub struct AesKey {
    pub bytes: [u8; 16],
}

/// The per-account key material: the asymmetric keypair and the symmetric key.
#[derive(Clone, Copy, Debug)]
pub struct EncryptionKeyPair {
    pub elgamal: ElGamalKeys,
    pub aes: AesKey,
}

/// What the ElGamal derivation yields for a signer (its keypair bytes) and a
/// public seed: the keypair bytes, or nothing when the derivation fails.
pub uninterp spec fn elgamal_keypair_of(signer: Seq<u8>, seed: Seq<u8>) -> Option<Seq<u8>>;

/// What the authenticated-encryption key derivation yields for a signer and a
/// public seed.
pub uninterp spec fn ae_key_of(signer: Seq<u8>, seed: Seq<u8>) -> Option<Seq<u8>>;

/// Relies on `ElGamalKeypair::new_from_signer`, after reading the signer with
/// `Keypair::try_from`: it signs a domain-separated
/// message with the (deterministic ed25519) signer and hashes the signature, so
/// the result depends on the signer's bytes and the seed alone.
#[verifier::external_body]
fn elgamal_from_signer(signer: &[u8; 64], seed: &[u8; 32]) -> (r: Option<[u8; 64]>)
    ensures
        r is Some <==> elgamal_keypair_of(signer@, seed@) is Some,
        r is Some ==> r->0@ == elgamal_keypair_of(signer@, seed@)->0,
{
    let signer = solana_keypair::Keypair::try_from(&signer[..]).ok()?;
    let keypair = ElGamalKeypair::new_from_signer(&signer, seed).ok()?;
    Some(<[u8; 64]>::from(&keypair))
}

/// Relies on `AeKey::new_from_signer`, after reading the signer with
/// `Keypair::try_from`: it signs a domain-separated message with the
/// (deterministic ed25519) signer and hashes the signature, so the result
/// depends on the signer's bytes and the seed alone.
#[verifier::external_body]
fn ae_key_from_signer(signer: &[u8; 64], seed: &[u8; 32]) -> (r: Option<[u8; 16]>)
    ensures
        r is Some <==> ae_key_of(signer@, seed@) is Some,
        r is Some ==> r->0@ == ae_key_of(signer@, seed@)->0,
{
    let signer = solana_keypair::Keypair::try_from(&signer[..]).ok()?;
    let key = AeKey::new_from_signer(&signer, seed).ok()?;
    Some(<[u8; 16]>::from(key))
}

/// The keys derived for `signer` and `account`: the ElGamal keypair bytes and
/// the symmetric key bytes, or nothing when either expansion fails.
pub open spec fn derived_keys(signer: Seq<u8>, account: Seq<u8>) -> Option<(Seq<u8>, Seq<u8>)> {
    match (elgamal_keypair_of(signer, account), ae_key_of(signer, account)) {
        (Some(e), Some(k)) => Some((e, k)),
        _ => None,
    }
}

/// Whether `r` is what deriving the keys of `signer` for `account` gives.
pub open spec fn is_derivation(
    signer: SigningIdentity,
    account: AccountId,
    r: Result<EncryptionKeyPair, ConfidentialError>,
) -> bool {
    match derived_keys(signer.keypair@, account.bytes@) {
        Some(keys) => r matches Ok(k) && k.elgamal.bytes@ == keys.0 && k.aes.bytes@ == keys.1,
        None => r == Err::<EncryptionKeyPair, ConfidentialError>(
            ConfidentialError::KeyDerivationFailure,
        ),
    }
}

impl ElGamalKeys {
    /// The 32-byte public half of the keypair.
    pub fn pubkey(&self) -> (r: [u8; 32])
        ensures
            r@ == self.bytes@.subrange(0, 32),
    {
        let mut out = [0u8; 32];
        let mut i: usize = 0;
        while i < 32
            invariant
                0 <= i <= 32,
                forall|j: int| 0 <= j < i ==> out@[j] == self.bytes@[j],
            decreases 32 - i,
        {
            out[i] = self.bytes[i];
            i = i + 1;
        }
        assert(out@ =~= self.bytes@.subrange(0, 32));
        out
    }
}

/// Derives the ElGamal keypair of `account` from the holder's signer.
pub fn generate_elgamal_keypair(wallet_keypair: &SigningIdentity, token_account: &AccountId) -> (r:
    Result<ElGamalKeys, ConfidentialError>)
    ensures
        r is Ok <==> elgamal_keypair_of(wallet_keypair.keypair@, token_account.bytes@) is Some,
        r matches Ok(k) ==> k.bytes@ == elgamal_keypair_of(
            wallet_keypair.keypair@,
            token_account.bytes@,
        )->0,
        r matches Err(e) ==> e == ConfidentialError::KeyDerivationFailure,
{
    match elgamal_from_signer(&wallet_keypair.keypair, &token_account.bytes) {
        Some(bytes) => Ok(ElGamalKeys { bytes }),
        None => Err(ConfidentialError::KeyDerivationFailure),
    }
}

/// Derives the symmetric key of `account` from the holder's signer.
pub fn generate_aes_key(wallet_keypair: &SigningIdentity, token_account: &AccountId) -> (r: Result<
    AesKey,
    ConfidentialError,
>)
    ensures
        r is Ok <==> ae_key_of(wallet_keypair.keypair@, token_account.bytes@) is Some,
        r matches Ok(k) ==> k.bytes@ == ae_key_of(
            wallet_keypair.keypair@,
            token_account.bytes@,
        )->0,
        r matches Err(e) ==> e == ConfidentialError::KeyDerivationFailure,
{
    match ae_key_from_signer(&wallet_keypair.keypair, &token_account.bytes) {
        Some(bytes) => Ok(AesKey { bytes }),
        None => Err(ConfidentialError::KeyDerivationFailure),
    }
}

/// Derives both keys of `account` from the holder's signer.
pub fn derive_keys(signing_identity: &SigningIdentity, account_id: &AccountId) -> (r: Result<
    EncryptionKeyPair,
    ConfidentialError,
>)
    ensures
        is_derivation(*signing_identity, *account_id, r),
{
    let elgamal = generate_elgamal_keypair(signing_identity, account_id);
    let aes = generate_aes_key(signing_identity, account_id);
    match (elgamal, aes) {
        (Ok(elgamal), Ok(aes)) => Ok(EncryptionKeyPair { elgamal, aes }),
        _ => Err(ConfidentialError::KeyDerivationFailure),
    }
}

/// Derivation is a pure function: two derivations for the same signer and
/// account yield bit-identical asymmetric and symmetric keys.
pub proof fn lemma_derivation_deterministic(
    signer: SigningIdentity,
    account: AccountId,
    first: Result<EncryptionKeyPair, ConfidentialError>,
    second: Result<EncryptionKeyPair, ConfidentialError>,
)
    requires
        is_derivation(signer, account, first),
        is_derivation(signer, account, second),
    ensures
        first is Ok <==> second is Ok,
        first matches Ok(a) ==> second matches Ok(b) && a.elgamal.bytes@ == b.elgamal.bytes@
            && a.aes.bytes@ == b.aes.bytes@,
{
}

/// The amount that a 36-byte authenticated ciphertext decrypts to under a key,
/// or nothing when it does not decrypt.
pub uninterp spec fn ae_decryption_of(key: Seq<u8>, ciphertext: Seq<u8>) -> Option<u64>;

/// Relies on `AeCiphertext::from_bytes` and `AeKey::decrypt`: authenticated
/// decryption, which depends on the key and the ciphertext alone.
#[verifier::external_body]
fn ae_decrypt(key: &[u8; 16], ciphertext: &[u8; 36]) -> (r: Option<u64>)
    ensures
        r == ae_decryption_of(key@, ciphertext@),
{
    AeKey::from(*key).decrypt(&AeCiphertext::from_bytes(ciphertext)?)
}

/// Decrypts a stored balance with the account's symmetric key.
pub fn decrypt_balance(aes_key: &AesKey, encrypted_balance: &[u8; 36]) -> (r: Result<
    u64,
    ConfidentialError,
>)
    ensures
        r is Ok <==> ae_decryption_of(aes_key.bytes@, encrypted_balance@) is Some,
        r matches Ok(v) ==> v == ae_decryption_of(aes_key.bytes@, encrypted_balance@)->0,
        r matches Err(e) ==> e == ConfidentialError::DecryptionFailure,
{
    match ae_decrypt(&aes_key.bytes, encrypted_balance) {
        Some(v) => Ok(v),
        None => Err(ConfidentialError::DecryptionFailure),
    }
}

} // verus!
