use vstd::prelude::*;
use crate::error::ConfidentialError;
use crate::keys::AccountId;
use spl_token_2022::solana_zk_sdk::encryption::elgamal::ElGamalPubkey;
use std::str::FromStr;

verus! {

/// The 32 address bytes that a base58 account address denotes, if it is one.
pub uninterp spec fn address_of(text: Seq<char>) -> Option<Seq<u8>>;

/// The bytes that a base58 text decodes to, if it is valid base58.
pub uninterp spec fn base58_of(text: Seq<char>) -> Option<Seq<u8>>;

/// Whether 32 bytes encode a valid ElGamal public key (a point of the group).
pub uninterp spec fn is_elgamal_pubkey(bytes: Seq<u8>) -> bool;

/// The associated token-2022 account of a wallet for a mint.
pub uninterp spec fn associated_account_of(wallet: Seq<u8>, mint: Seq<u8>) -> Seq<u8>;

/// Relies on `Pubkey::from_str`: decodes a base58 address of exactly 32 bytes.
#[verifier::external_body]
fn pubkey_from_str(text: &str) -> (r: Option<[u8; 32]>)
    ensures
        r is Some <==> address_of(text@) is Some,
        r is Some ==> r->0@ == address_of(text@)->0,
{
    solana_pubkey::Pubkey::from_str(text).ok().map(|k| k.to_bytes())
}

/// Relies on `bs58::decode(..).into_vec()`: the bytes of a base58 text.
#[verifier::external_body]
fn base58_decode(text: &str) -> (r: Option<Vec<u8>>)
    ensures
        r is Some <==> base58_of(text@) is Some,
        r is Some ==> r->0@ == base58_of(text@)->0,
{
    bs58::decode(text).into_vec().ok()
}

/// Relies on `ElGamalPubkey::try_from(&[u8])`: whether the bytes decompress to
/// a valid group point.
#[verifier::external_body]
fn elgamal_pubkey_check(bytes: &[u8; 32]) -> (r: bool)
    ensures
        r == is_elgamal_pubkey(bytes@),
{
    ElGamalPubkey::try_from(&bytes[..]).is_ok()
}

/// Relies on `get_associated_token_address_with_program_id` with the
/// token-2022 program: the address derived from the wallet and the mint.
#[verifier::external_body]
fn associated_address(wallet: &[u8; 32], mint: &[u8; 32]) -> (r: [u8; 32])
    ensures
        r@ == associated_account_of(wallet@, mint@),
{
    let wallet = solana_pubkey::Pubkey::new_from_array(*wallet);
    let mint = solana_pubkey::Pubkey::new_from_array(*mint);
    spl_associated_token_account::get_associated_token_address_with_program_id(
        &wallet, &mint, &spl_token_2022::id()).to_bytes()
}

/// Parses a base58 account address.
pub fn parse_address(text: &String) -> (r: Result<AccountId, ConfidentialError>)
    ensures
        r is Ok <==> address_of(text@) is Some,
        r matches Ok(a) ==> a.bytes@ == address_of(text@)->0,
        r matches Err(e) ==> e == ConfidentialError::InvalidIdentifier,
{
    match pubkey_from_str(text.as_str()) {
        Some(bytes) => Ok(AccountId { bytes }),
        None => Err(ConfidentialError::InvalidIdentifier),
    }
}

/// Whether `text` is a base58 ElGamal public key.
pub open spec fn elgamal_pubkey_text_ok(text: Seq<char>) -> bool {
    &&& base58_of(text) is Some
    &&& base58_of(text)->0.len() == 32
    &&& is_elgamal_pubkey(base58_of(text)->0)
}

/// Parses a base58 ElGamal public key: 32 bytes that encode a group point.
pub fn parse_elgamal_pubkey(text: &String) -> (r: Result<[u8; 32], ConfidentialError>)
    ensures
        r is Ok <==> elgamal_pubkey_text_ok(text@),
        r matches Ok(k) ==> k@ == base58_of(text@)->0,
        r matches Err(e) ==> e == ConfidentialError::InvalidIdentifier,
{
    let bytes = match base58_decode(text.as_str()) {
        Some(b) => b,
        None => return Err(ConfidentialError::InvalidIdentifier),
    };
    if bytes.len() != 32 {
        return Err(ConfidentialError::InvalidIdentifier);
    }
    let mut key = [0u8; 32];
    let mut i: usize = 0;
    while i < 32
        invariant
            bytes@.len() == 32,
            0 <= i <= 32,
            forall|j: int| 0 <= j < i ==> key@[j] == bytes@[j],
        decreases 32 - i,
    {
        key[i] = bytes[i];
        i = i + 1;
    }
    assert(key@ =~= bytes@);
    if elgamal_pubkey_check(&key) {
        Ok(key)
    } else {
        Err(ConfidentialError::InvalidIdentifier)
    }
}

/// The associated token account of `wallet` for `mint`.
pub fn associated_token_account(wallet: &AccountId, mint: &AccountId) -> (r: AccountId)
    ensures
        r.bytes@ == associated_account_of(wallet.bytes@, mint.bytes@),
{
    AccountId { bytes: associated_address(&wallet.bytes, &mint.bytes) }
}

} // verus!
