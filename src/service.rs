use vstd::prelude::*;
use crate::attest::{attestation_text, decimal, generate_eligibility_proof, push_decimal};
use crate::error::{description, ConfidentialError};
use crate::identifiers::{
    address_of, associated_account_of, associated_token_account, elgamal_pubkey_text_ok,
    base58_of, parse_address, parse_elgamal_pubkey,
};
use crate::keys::{derive_keys, derived_keys, is_derivation, AccountId, EncryptionKeyPair, SigningIdentity};
use crate::models::{
    ApplyPendingRequest, ApplyPendingResponse, CreateAccountRequest, CreateAccountResponse,
    DepositRequest, DepositResponse, GenerateProofRequest, GenerateProofResponse, TransferRequest,
    TransferResponse, WithdrawRequest, WithdrawResponse,
};
use crate::proofs::{
    bundle_or_failure, generate_pubkey_validity_proof, generate_transfer_proof,
    generate_withdraw_proof, holds_confidential_account, read_confidential_account, OperationKind,
    ProofBundle, MAX_TRANSFER_AMOUNT,
};

verus! {

/// A parsed deposit: move `amount` of the public balance to the pending balance.
pub struct DepositPlan {
    pub wallet: AccountId,
    pub token_account: AccountId,
    pub amount: u64,
    pub decimals: u8,
}

/// A parsed apply, with the keys that re-encrypt the applied balance.
pub struct ApplyPendingPlan {
    pub wallet: AccountId,
    pub token_account: AccountId,
    pub keys: EncryptionKeyPair,
}

/// Everything an account configuration needs: the derived associated
/// account, its keys, and the public-key validity proof.
pub struct AccountConfigPlan {
    pub wallet: AccountId,
    pub mint: AccountId,
    pub token_account: AccountId,
    pub keys: EncryptionKeyPair,
    pub bundle: ProofBundle,
}

/// Everything a confidential transfer needs before its choreography starts.
pub struct TransferPlan {
    pub sender_wallet: AccountId,
    pub sender_account: AccountId,
    pub recipient_account: AccountId,
    pub recipient_elgamal_pubkey: [u8; 32],
    pub amount: u64,
    pub keys: EncryptionKeyPair,
    pub bundle: ProofBundle,
}

/// Everything a withdrawal needs before its choreography starts.
pub struct WithdrawPlan {
    pub wallet: AccountId,
    pub token_account: AccountId,
    pub amount: u64,
    pub decimals: u8,
    pub keys: EncryptionKeyPair,
    pub bundle: ProofBundle,
}

/// Whether both addresses of a deposit or apply request parse.
pub open spec fn addresses_ok(wallet: Seq<char>, account: Seq<char>) -> bool {
    address_of(wallet) is Some && address_of(account) is Some
}

/// Parses a deposit request.
pub fn prepare_deposit(request: &DepositRequest) -> (r: Result<DepositPlan, ConfidentialError>)
    ensures
        r is Ok <==> addresses_ok(request.wallet_address@, request.token_account@),
        r matches Ok(p) ==> p.wallet.bytes@ == address_of(request.wallet_address@)->0
            && p.token_account.bytes@ == address_of(request.token_account@)->0 && p.amount
            == request.amount && p.decimals == request.decimals,
        r matches Err(e) ==> e == ConfidentialError::InvalidIdentifier,
{
    let wallet = parse_address(&request.wallet_address)?;
    let token_account = parse_address(&request.token_account)?;
    Ok(DepositPlan { wallet, token_account, amount: request.amount, decimals: request.decimals })
}

/// Parses an apply request and derives the account's keys.
pub fn prepare_apply_pending(request: &ApplyPendingRequest, signer: &SigningIdentity) -> (r: Result<
    ApplyPendingPlan,
    ConfidentialError,
>)
    ensures
        !addresses_ok(request.wallet_address@, request.token_account@) ==> r
            == Err::<ApplyPendingPlan, ConfidentialError>(ConfidentialError::InvalidIdentifier),
        addresses_ok(request.wallet_address@, request.token_account@) ==> (r is Ok <==> derived_keys(
            signer.keypair@,
            address_of(request.token_account@)->0,
        ) is Some),
        r matches Ok(p) ==> p.wallet.bytes@ == address_of(request.wallet_address@)->0
            && p.token_account.bytes@ == address_of(request.token_account@)->0
            && is_derivation(*signer, p.token_account, Ok(p.keys)),
        r matches Err(e) ==> e == ConfidentialError::InvalidIdentifier || e
            == ConfidentialError::KeyDerivationFailure,
{
    let wallet = parse_address(&request.wallet_address)?;
    let token_account = parse_address(&request.token_account)?;
    let keys = derive_keys(signer, &token_account)?;
    Ok(ApplyPendingPlan { wallet, token_account, keys })
}

/// Parses an account creation request, derives the associated account and its
/// keys, and proves the public key valid.
pub fn prepare_account_config(request: &CreateAccountRequest, signer: &SigningIdentity) -> (r: Result<
    AccountConfigPlan,
    ConfidentialError,
>)
    ensures
        !addresses_ok(request.wallet_address@, request.mint_address@) ==> r
            == Err::<AccountConfigPlan, ConfidentialError>(ConfidentialError::InvalidIdentifier),
        addresses_ok(request.wallet_address@, request.mint_address@) && derived_keys(
            signer.keypair@,
            associated_account_of(
                address_of(request.wallet_address@)->0,
                address_of(request.mint_address@)->0,
            ),
        ) is None ==> r == Err::<AccountConfigPlan, ConfidentialError>(
            ConfidentialError::KeyDerivationFailure,
        ),
        r matches Ok(p) ==> p.wallet.bytes@ == address_of(request.wallet_address@)->0
            && p.mint.bytes@ == address_of(request.mint_address@)->0 && p.token_account.bytes@
            == associated_account_of(p.wallet.bytes@, p.mint.bytes@) && is_derivation(
            *signer,
            p.token_account,
            Ok(p.keys),
        ) && p.bundle.kind == OperationKind::AccountConfig && p.bundle.wf(),
        r matches Err(e) ==> e == ConfidentialError::InvalidIdentifier || e
            == ConfidentialError::KeyDerivationFailure || e
            == ConfidentialError::ProofGenerationFailure,
{
    let wallet = parse_address(&request.wallet_address)?;
    let mint = parse_address(&request.mint_address)?;
    let token_account = associated_token_account(&wallet, &mint);
    let keys = derive_keys(signer, &token_account)?;
    let bundle = generate_pubkey_validity_proof(&keys.elgamal)?;
    Ok(AccountConfigPlan { wallet, mint, token_account, keys, bundle })
}

/// Whether every identifier of a transfer request parses.
pub open spec fn transfer_ids_ok(request: TransferRequest) -> bool {
    &&& address_of(request.sender_wallet@) is Some
    &&& address_of(request.sender_token_account@) is Some
    &&& address_of(request.recipient_token_account@) is Some
    &&& elgamal_pubkey_text_ok(request.recipient_elgamal_pubkey@)
}

/// Parses a transfer request, reads the sender's confidential state from its
/// account data, derives the sender's keys and proves the transfer.
///
/// Failures come in this order: a malformed identifier, data that holds no
/// confidential account, an amount beyond the provable range, a failed key
/// derivation, a failed proof. None of them involves a ledger submission: a
/// run only starts from a plan.
pub fn prepare_transfer(
    request: &TransferRequest,
    signer: &SigningIdentity,
    sender_account_data: &Vec<u8>,
) -> (r: Result<TransferPlan, ConfidentialError>)
    ensures
        !transfer_ids_ok(*request) ==> r == Err::<TransferPlan, ConfidentialError>(
            ConfidentialError::InvalidIdentifier,
        ),
        transfer_ids_ok(*request) && !holds_confidential_account(sender_account_data@) ==> r
            == Err::<TransferPlan, ConfidentialError>(ConfidentialError::AccountNotFound),
        transfer_ids_ok(*request) && holds_confidential_account(sender_account_data@)
            && request.amount > MAX_TRANSFER_AMOUNT ==> r == Err::<TransferPlan, ConfidentialError>(
            ConfidentialError::AmountOutOfRange,
        ),
        transfer_ids_ok(*request) && holds_confidential_account(sender_account_data@)
            && request.amount <= MAX_TRANSFER_AMOUNT && derived_keys(
            signer.keypair@,
            address_of(request.sender_token_account@)->0,
        ) is None ==> r == Err::<TransferPlan, ConfidentialError>(
            ConfidentialError::KeyDerivationFailure,
        ),
        r matches Ok(p) ==> p.sender_wallet.bytes@ == address_of(request.sender_wallet@)->0
            && p.sender_account.bytes@ == address_of(request.sender_token_account@)->0
            && p.recipient_account.bytes@ == address_of(request.recipient_token_account@)->0
            && p.recipient_elgamal_pubkey@ == base58_of(request.recipient_elgamal_pubkey@)->0
            && p.amount == request.amount && p.amount <= MAX_TRANSFER_AMOUNT && is_derivation(
            *signer,
            p.sender_account,
            Ok(p.keys),
        ) && p.bundle.kind == OperationKind::Transfer && p.bundle.wf(),
        r matches Err(e) ==> e == ConfidentialError::InvalidIdentifier || e
            == ConfidentialError::AccountNotFound || e == ConfidentialError::KeyDerivationFailure
            || e == ConfidentialError::AmountOutOfRange || e
            == ConfidentialError::ProofGenerationFailure,
{
    let sender_wallet = parse_address(&request.sender_wallet)?;
    let sender_account = parse_address(&request.sender_token_account)?;
    let recipient_account = parse_address(&request.recipient_token_account)?;
    let recipient_elgamal_pubkey = parse_elgamal_pubkey(&request.recipient_elgamal_pubkey)?;
    let state = read_confidential_account(sender_account_data)?;
    if request.amount > MAX_TRANSFER_AMOUNT {
        return Err(ConfidentialError::AmountOutOfRange);
    }
    let keys = derive_keys(signer, &sender_account)?;
    let bundle = generate_transfer_proof(
        &state,
        request.amount,
        &keys.elgamal,
        &keys.aes,
        &recipient_elgamal_pubkey,
        None,
    )?;
    Ok(TransferPlan {
        sender_wallet,
        sender_account,
        recipient_account,
        recipient_elgamal_pubkey,
        amount: request.amount,
        keys,
        bundle,
    })
}

/// Parses a withdrawal request, reads the account's confidential state from
/// its data, derives the keys and proves the withdrawal.
pub fn prepare_withdraw(
    request: &WithdrawRequest,
    signer: &SigningIdentity,
    account_data: &Vec<u8>,
) -> (r: Result<WithdrawPlan, ConfidentialError>)
    ensures
        !addresses_ok(request.wallet_address@, request.token_account@) ==> r == Err::<
            WithdrawPlan,
            ConfidentialError,
        >(ConfidentialError::InvalidIdentifier),
        addresses_ok(request.wallet_address@, request.token_account@)
            && !holds_confidential_account(account_data@) ==> r == Err::<
            WithdrawPlan,
            ConfidentialError,
        >(ConfidentialError::AccountNotFound),
        addresses_ok(request.wallet_address@, request.token_account@) && holds_confidential_account(
            account_data@,
        ) && derived_keys(signer.keypair@, address_of(request.token_account@)->0) is None ==> r
            == Err::<WithdrawPlan, ConfidentialError>(ConfidentialError::KeyDerivationFailure),
        r matches Ok(p) ==> p.wallet.bytes@ == address_of(request.wallet_address@)->0
            && p.token_account.bytes@ == address_of(request.token_account@)->0 && p.amount
            == request.amount && p.decimals == request.decimals && is_derivation(
            *signer,
            p.token_account,
            Ok(p.keys),
        ) && p.bundle.kind == OperationKind::Withdraw && p.bundle.wf(),
        r matches Err(e) ==> e == ConfidentialError::InvalidIdentifier || e
            == ConfidentialError::AccountNotFound || e == ConfidentialError::KeyDerivationFailure
            || e == ConfidentialError::ProofGenerationFailure,
{
    let wallet = parse_address(&request.wallet_address)?;
    let token_account = parse_address(&request.token_account)?;
    let state = read_confidential_account(account_data)?;
    let keys = derive_keys(signer, &token_account)?;
    let bundle = generate_withdraw_proof(&state, request.amount, &keys.elgamal, &keys.aes)?;
    Ok(WithdrawPlan {
        wallet,
        token_account,
        amount: request.amount,
        decimals: request.decimals,
        keys,
        bundle,
    })
}

/// Answers an eligibility request for an account whose available balance is
/// `available_balance`: the attestation, and the public inputs it was made
/// from (the wallet address and the threshold in decimal).
pub fn eligibility_response(request: &GenerateProofRequest, available_balance: u64) -> (r:
    GenerateProofResponse)
    ensures
        r.success,
        r.eligible == (available_balance >= request.threshold),
        r.public_inputs@.len() == 2,
        r.public_inputs@[0]@ == request.wallet_address@,
        r.public_inputs@[1]@ == decimal(request.threshold as nat),
        exists|t: i64|
            r.proof@ == #[trigger] attestation_text(
                available_balance as nat,
                request.threshold as nat,
                t as int,
            ),
        r.error is None,
{
    let (eligible, proof) = match generate_eligibility_proof(available_balance, request.threshold) {
        Ok(p) => p,
        Err(_) => (false, String::new()),
    };
    let mut threshold_text = String::new();
    push_decimal(&mut threshold_text, request.threshold);
    proof {
        assert(threshold_text@ =~= decimal(request.threshold as nat));
    }
    let mut public_inputs: Vec<String> = Vec::new();
    public_inputs.push(request.wallet_address.clone());
    public_inputs.push(threshold_text);
    GenerateProofResponse { success: true, proof, public_inputs, eligible, error: None }
}

/// Whether `(success, signature, error)` reports `result` faithfully: success
/// exactly when the guarded operation was confirmed, with its signature, and
/// otherwise the failure's description.
pub open spec fn reports(
    result: Result<String, ConfidentialError>,
    success: bool,
    signature: String,
    error: Option<String>,
) -> bool {
    match result {
        Ok(s) => success && signature@ == s@ && error is None,
        Err(e) => {
            &&& !success
            &&& signature@ == Seq::<char>::empty()
            &&& error is Some
            &&& error->0@ == description(e)
        },
    }
}

fn report(result: Result<String, ConfidentialError>) -> (r: (bool, String, Option<String>))
    ensures
        reports(result, r.0, r.1, r.2),
{
    match result {
        Ok(signature) => (true, signature, None),
        Err(e) => (false, String::new(), Some(e.describe())),
    }
}

/// The answer to an account creation whose submission ended with `result`.
pub fn create_account_response(result: Result<String, ConfidentialError>, token_account: String) -> (r:
    CreateAccountResponse)
    ensures
        reports(result, r.success, r.signature, r.error),
        r.token_account == token_account,
{
    let (success, signature, error) = report(result);
    CreateAccountResponse { success, token_account, signature, error }
}

/// The answer to a deposit whose submission ended with `result`.
pub fn deposit_response(result: Result<String, ConfidentialError>) -> (r: DepositResponse)
    ensures
        reports(result, r.success, r.signature, r.error),
{
    let (success, signature, error) = report(result);
    DepositResponse { success, signature, error }
}

/// The answer to an apply whose submission ended with `result`.
pub fn apply_pending_response(result: Result<String, ConfidentialError>) -> (r: ApplyPendingResponse)
    ensures
        reports(result, r.success, r.signature, r.error),
{
    let (success, signature, error) = report(result);
    ApplyPendingResponse { success, signature, error }
}

/// The answer to a transfer whose run ended with `result`.
pub fn transfer_response(result: Result<String, ConfidentialError>) -> (r: TransferResponse)
    ensures
        reports(result, r.success, r.signature, r.error),
{
    let (success, signature, error) = report(result);
    TransferResponse { success, signature, error }
}

/// The answer to a withdrawal whose run ended with `result`.
pub fn withdraw_response(result: Result<String, ConfidentialError>) -> (r: WithdrawResponse)
    ensures
        reports(result, r.success, r.signature, r.error),
{
    let (success, signature, error) = report(result);
    WithdrawResponse { success, signature, error }
}

} // verus!
