use vstd::prelude::*;
use crate::balance::MAX_PENDING_CREDITS;
use crate::error::ConfidentialError;
use crate::keys::{ae_decryption_of, AccountId};
use crate::state::DecryptedBalances;
use crate::proofs::{required_kinds, OperationKind, SubProof, SubProofKind};
use crate::service::{AccountConfigPlan, ApplyPendingPlan, DepositPlan, TransferPlan, WithdrawPlan};
use spl_token_2022::extension::StateWithExtensions;
use solana_instruction::Instruction;
use solana_pubkey::Pubkey;
use spl_token_2022::extension::confidential_transfer::account_info::{
    TransferAccountInfo, WithdrawAccountInfo,
};
use spl_token_2022::extension::confidential_transfer::instruction as ct;
use spl_token_2022::extension::confidential_transfer::ConfidentialTransferAccount;
use spl_token_2022::solana_zk_sdk::encryption::auth_encryption::{AeCiphertext, AeKey};
use spl_token_2022::solana_zk_sdk::encryption::elgamal::ElGamalCiphertext;
use spl_token_2022::solana_zk_sdk::zk_elgamal_proof_program::instruction::{
    close_context_state, ContextStateInfo, ProofInstruction,
};
use spl_token_2022::solana_zk_sdk::zk_elgamal_proof_program::proof_data::{
    BatchedRangeProofU128Data, BatchedRangeProofU64Data, CiphertextCommitmentEqualityProofData,
    PubkeyValidityProofData,
};
use spl_token_confidential_transfer_proof_extraction::instruction::ProofLocation;
use spl_token_confidential_transfer_proof_generation::CiphertextValidityProofWithAuditorCiphertext;

verus! {

#[verifier::external_type_specification]
#[verifier::external_body]
pub struct ExInstruction(Instruction);

/// Relies on `ProofInstruction::VerifyPubkeyValidity.encode_verify_proof`: the
/// instruction that verifies the proof into the context account.
#[verifier::external_body]
fn verify_pubkey_validity(data: &PubkeyValidityProofData, context: &[u8; 32], authority: &[u8; 32]) -> (r: Instruction) {
    let info = ContextStateInfo {
        context_state_account: &Pubkey::new_from_array(*context),
        context_state_authority: &Pubkey::new_from_array(*authority),
    };
    ProofInstruction::VerifyPubkeyValidity.encode_verify_proof(Some(info), data)
}

/// Relies on `ProofInstruction::VerifyCiphertextCommitmentEquality.encode_verify_proof`.
#[verifier::external_body]
fn verify_equality(data: &CiphertextCommitmentEqualityProofData, context: &[u8; 32], authority: &[u8; 32]) -> (r: Instruction) {
    let info = ContextStateInfo {
        context_state_account: &Pubkey::new_from_array(*context),
        context_state_authority: &Pubkey::new_from_array(*authority),
    };
    ProofInstruction::VerifyCiphertextCommitmentEquality.encode_verify_proof(Some(info), data)
}

/// Relies on
/// `ProofInstruction::VerifyBatchedGroupedCiphertext3HandlesValidity.encode_verify_proof`.
#[verifier::external_body]
fn verify_ciphertext_validity(data: &CiphertextValidityProofWithAuditorCiphertext, context: &[u8; 32], authority: &[u8; 32]) -> (r: Instruction) {
    let info = ContextStateInfo {
        context_state_account: &Pubkey::new_from_array(*context),
        context_state_authority: &Pubkey::new_from_array(*authority),
    };
    ProofInstruction::VerifyBatchedGroupedCiphertext3HandlesValidity
        .encode_verify_proof(Some(info), &data.proof_data)
}

/// Relies on `ProofInstruction::VerifyBatchedRangeProofU128.encode_verify_proof`.
#[verifier::external_body]
fn verify_range_u128(data: &BatchedRangeProofU128Data, context: &[u8; 32], authority: &[u8; 32]) -> (r: Instruction) {
    let info = ContextStateInfo {
        context_state_account: &Pubkey::new_from_array(*context),
        context_state_authority: &Pubkey::new_from_array(*authority),
    };
    ProofInstruction::VerifyBatchedRangeProofU128.encode_verify_proof(Some(info), data)
}

/// Relies on `ProofInstruction::VerifyBatchedRangeProofU64.encode_verify_proof`.
#[verifier::external_body]
fn verify_range_u64(data: &BatchedRangeProofU64Data, context: &[u8; 32], authority: &[u8; 32]) -> (r: Instruction) {
    let info = ContextStateInfo {
        context_state_account: &Pubkey::new_from_array(*context),
        context_state_authority: &Pubkey::new_from_array(*authority),
    };
    ProofInstruction::VerifyBatchedRangeProofU64.encode_verify_proof(Some(info), data)
}

/// The instruction that closes a context account, returning its lease to a
/// destination.
pub uninterp spec fn close_ix_of(context: Seq<u8>, authority: Seq<u8>, destination: Seq<u8>) -> Instruction;

/// The instruction that creates a wallet's associated token-2022 account.
pub uninterp spec fn create_account_ix_of(payer: Seq<u8>, wallet: Seq<u8>, mint: Seq<u8>) -> Instruction;

/// The instruction that makes room for the confidential-transfer extension.
pub uninterp spec fn reallocate_ix_of(account: Seq<u8>, payer: Seq<u8>, owner: Seq<u8>) -> Instruction;

/// The instruction that configures an account for confidential transfers.
pub uninterp spec fn configure_ix_of(
    account: Seq<u8>,
    mint: Seq<u8>,
    zero_balance: Seq<u8>,
    max_credits: u64,
    authority: Seq<u8>,
    context: Seq<u8>,
) -> Instruction;

/// The confidential deposit instruction.
pub uninterp spec fn deposit_ix_of(
    account: Seq<u8>,
    mint: Seq<u8>,
    amount: u64,
    decimals: u8,
    authority: Seq<u8>,
) -> Instruction;

/// The instruction that applies the pending balance.
pub uninterp spec fn apply_ix_of(
    account: Seq<u8>,
    credits: u64,
    new_available: Seq<u8>,
    authority: Seq<u8>,
) -> Instruction;

/// Relies on `close_context_state`: the instruction that reclaims a context
/// account into `destination`.
#[verifier::external_body]
fn close_context(context: &[u8; 32], authority: &[u8; 32], destination: &[u8; 32]) -> (r: Instruction)
    ensures
        r == close_ix_of(context@, authority@, destination@),
{
    let info = ContextStateInfo {
        context_state_account: &Pubkey::new_from_array(*context),
        context_state_authority: &Pubkey::new_from_array(*authority),
    };
    close_context_state(info, &Pubkey::new_from_array(*destination))
}

/// Relies on `AeKey::encrypt` and `AeCiphertext::to_bytes`: the nonce is
/// random, but the ciphertext decrypts back to `amount` under the same key.
#[verifier::external_body]
fn ae_encrypt(key: &[u8; 16], amount: u64) -> (r: [u8; 36])
    ensures
        ae_decryption_of(key@, r@) == Some(amount),
{
    AeKey::from(*key).encrypt(amount).to_bytes()
}

/// Relies on `TransferAccountInfo::new_decryptable_available_balance`: the
/// available balance less `amount`, re-encrypted with a random nonce; none when
/// it does not decrypt or does not cover the amount.
#[verifier::external_body]
fn balance_after_transfer(state: &ConfidentialTransferAccount, amount: u64, aes: &[u8; 16]) -> (r: Option<[u8; 36]>) {
    TransferAccountInfo::new(state).new_decryptable_available_balance(amount, &AeKey::from(*aes))
        .ok().map(|c| c.to_bytes())
}

/// Relies on `ElGamalCiphertext::try_from` and `to_bytes`: the auditor's low
/// and high ciphertexts of the transfer amount, as bytes.
#[verifier::external_body]
fn auditor_ciphertexts(validity: &CiphertextValidityProofWithAuditorCiphertext) -> (r: Option<([u8; 64], [u8; 64])>) {
    Some((ElGamalCiphertext::try_from(validity.ciphertext_lo).ok()?.to_bytes(),
        ElGamalCiphertext::try_from(validity.ciphertext_hi).ok()?.to_bytes()))
}

/// Relies on `WithdrawAccountInfo::new_decryptable_available_balance`: the
/// available balance less `amount`, re-encrypted with a random nonce; none when
/// it does not decrypt or does not cover the amount.
#[verifier::external_body]
fn balance_after_withdraw(state: &ConfidentialTransferAccount, amount: u64, aes: &[u8; 16]) -> (r: Option<[u8; 36]>) {
    WithdrawAccountInfo::new(state).new_decryptable_available_balance(amount, &AeKey::from(*aes))
        .ok().map(|c| c.to_bytes())
}

/// Relies on the token program's `inner_configure_account` builder, with the
/// proof held in a context account; it fails only on a wrong program id.
#[verifier::external_body]
fn configure_account_instruction(account: &[u8; 32], mint: &[u8; 32], zero: &[u8; 36], max_credits: u64, authority: &[u8; 32], context: &[u8; 32]) -> (r: Option<Instruction>)
    ensures
        r == Some(configure_ix_of(account@, mint@, zero@, max_credits, authority@, context@)),
{
    let context = Pubkey::new_from_array(*context);
    let zero = AeCiphertext::from_bytes(zero)?.into();
    ct::inner_configure_account(&spl_token_2022::id(), &Pubkey::new_from_array(*account),
        &Pubkey::new_from_array(*mint), &zero, max_credits, &Pubkey::new_from_array(*authority),
        &[], ProofLocation::ContextStateAccount(&context)).ok()
}

/// Relies on `create_associated_token_account` for the token-2022 program: the
/// instruction that creates the wallet's associated account for the mint.
#[verifier::external_body]
fn create_associated_account(payer: &[u8; 32], wallet: &[u8; 32], mint: &[u8; 32]) -> (r: Instruction)
    ensures
        r == create_account_ix_of(payer@, wallet@, mint@),
{
    spl_associated_token_account::instruction::create_associated_token_account(
        &Pubkey::new_from_array(*payer), &Pubkey::new_from_array(*wallet),
        &Pubkey::new_from_array(*mint), &spl_token_2022::id())
}

/// Relies on the token program's `reallocate` builder: room for the
/// confidential-transfer account extension. It fails only on a wrong program id.
#[verifier::external_body]
fn reallocate_for_confidential(account: &[u8; 32], payer: &[u8; 32], owner: &[u8; 32]) -> (r: Option<Instruction>)
    ensures
        r == Some(reallocate_ix_of(account@, payer@, owner@)),
{
    let owner = Pubkey::new_from_array(*owner);
    spl_token_2022::instruction::reallocate(&spl_token_2022::id(), &Pubkey::new_from_array(*account),
        &Pubkey::new_from_array(*payer), &owner, &[&owner],
        &[spl_token_2022::extension::ExtensionType::ConfidentialTransferAccount]).ok()
}

/// Relies on the token program's confidential `deposit` builder; it fails only
/// on a wrong program id.
#[verifier::external_body]
fn deposit_instruction(account: &[u8; 32], mint: &[u8; 32], amount: u64, decimals: u8, authority: &[u8; 32]) -> (r: Option<Instruction>)
    ensures
        r == Some(deposit_ix_of(account@, mint@, amount, decimals, authority@)),
{
    ct::deposit(&spl_token_2022::id(), &Pubkey::new_from_array(*account),
        &Pubkey::new_from_array(*mint), amount, decimals, &Pubkey::new_from_array(*authority), &[]).ok()
}

/// Relies on the token program's `apply_pending_balance` builder; it fails
/// only on a wrong program id.
#[verifier::external_body]
fn apply_pending_instruction(account: &[u8; 32], credits: u64, balance: &[u8; 36], authority: &[u8; 32]) -> (r: Option<Instruction>)
    ensures
        r == Some(apply_ix_of(account@, credits, balance@, authority@)),
{
    let balance = AeCiphertext::from_bytes(balance)?.into();
    ct::apply_pending_balance(&spl_token_2022::id(), &Pubkey::new_from_array(*account), credits,
        &balance, &Pubkey::new_from_array(*authority), &[]).ok()
}

/// The confidential transfer instruction, with all three proofs held in
/// context accounts.
pub uninterp spec fn transfer_ix_of(
    source: Seq<u8>,
    mint: Seq<u8>,
    destination: Seq<u8>,
    new_available: Seq<u8>,
    auditor_lo: Seq<u8>,
    auditor_hi: Seq<u8>,
    authority: Seq<u8>,
    equality_context: Seq<u8>,
    validity_context: Seq<u8>,
    range_context: Seq<u8>,
) -> Instruction;

/// Relies on the token program's `inner_transfer` builder, with the three
/// proofs held in context accounts (equality, ciphertext validity, range).
#[verifier::external_body]
fn transfer_instruction(source: &[u8; 32], mint: &[u8; 32], destination: &[u8; 32], balance: &[u8; 36], lo: &[u8; 64], hi: &[u8; 64], authority: &[u8; 32], contexts: &[[u8; 32]; 3]) -> (r: Option<Instruction>)
    ensures
        r is Some ==> r->0 == transfer_ix_of(source@, mint@, destination@, balance@, lo@, hi@,
            authority@, contexts[0]@, contexts[1]@, contexts[2]@),
{
    let [e, v, g] = contexts.map(Pubkey::new_from_array);
    let (lo, hi) = (ElGamalCiphertext::from_bytes(lo)?.into(), ElGamalCiphertext::from_bytes(hi)?.into());
    ct::inner_transfer(&spl_token_2022::id(), &Pubkey::new_from_array(*source), &Pubkey::new_from_array(*mint),
        &Pubkey::new_from_array(*destination), &AeCiphertext::from_bytes(balance)?.into(), &lo, &hi,
        &Pubkey::new_from_array(*authority), &[], ProofLocation::ContextStateAccount(&e),
        ProofLocation::ContextStateAccount(&v), ProofLocation::ContextStateAccount(&g)).ok()
}

/// The confidential withdraw instruction, with both proofs held in context
/// accounts.
pub uninterp spec fn withdraw_ix_of(
    account: Seq<u8>,
    mint: Seq<u8>,
    amount: u64,
    decimals: u8,
    new_available: Seq<u8>,
    authority: Seq<u8>,
    equality_context: Seq<u8>,
    range_context: Seq<u8>,
) -> Instruction;

/// Relies on the token program's `inner_withdraw` builder, with both proofs
/// held in context accounts; it fails only on a wrong program id.
#[verifier::external_body]
fn withdraw_instruction(account: &[u8; 32], mint: &[u8; 32], amount: u64, decimals: u8, balance: &[u8; 36], authority: &[u8; 32], equality: &[u8; 32], range: &[u8; 32]) -> (r: Option<Instruction>)
    ensures
        r == Some(withdraw_ix_of(account@, mint@, amount, decimals, balance@, authority@, equality@, range@)),
{
    let (e, g) = (Pubkey::new_from_array(*equality), Pubkey::new_from_array(*range));
    ct::inner_withdraw(&spl_token_2022::id(), &Pubkey::new_from_array(*account), &Pubkey::new_from_array(*mint),
        amount, decimals, &AeCiphertext::from_bytes(balance)?.into(), &Pubkey::new_from_array(*authority), &[],
        ProofLocation::ContextStateAccount(&e), ProofLocation::ContextStateAccount(&g)).ok()
}

/// The mint address that raw token-account data records, if it is a token
/// account.
pub uninterp spec fn mint_of(data: Seq<u8>) -> Option<Seq<u8>>;

/// Relies on `StateWithExtensions::<Account>::unpack`: the mint of the base
/// token account.
#[verifier::external_body]
fn unpack_mint(data: &[u8]) -> (r: Option<[u8; 32]>)
    ensures
        r is Some <==> mint_of(data@) is Some,
        r is Some ==> r->0@ == mint_of(data@)->0,
{
    let state = StateWithExtensions::<spl_token_2022::state::Account>::unpack(data).ok()?;
    Some(state.base.mint.to_bytes())
}

/// The mint of a token account, read from its raw data.
pub fn token_account_mint(data: &Vec<u8>) -> (r: Result<AccountId, ConfidentialError>)
    ensures
        r is Ok <==> mint_of(data@) is Some,
        r matches Ok(m) ==> m.bytes@ == mint_of(data@)->0,
        r matches Err(e) ==> e == ConfidentialError::AccountNotFound,
{
    match unpack_mint(data.as_slice()) {
        Some(bytes) => Ok(AccountId { bytes }),
        None => Err(ConfidentialError::AccountNotFound),
    }
}

/// The instruction that verifies `sub_proof` into the context account `context`,
/// which `authority` may later close.
pub fn context_creation_instruction(sub_proof: &SubProof, context: &AccountId, authority: &AccountId) -> Instruction {
    match sub_proof {
        SubProof::PubkeyValidity(d) => verify_pubkey_validity(d, &context.bytes, &authority.bytes),
        SubProof::Equality(d) => verify_equality(d, &context.bytes, &authority.bytes),
        SubProof::CiphertextValidity(d) => verify_ciphertext_validity(d, &context.bytes, &authority.bytes),
        SubProof::TransferRange(d) => verify_range_u128(d, &context.bytes, &authority.bytes),
        SubProof::WithdrawRange(d) => verify_range_u64(d, &context.bytes, &authority.bytes),
    }
}

/// The instruction that closes the context account `context`, returning its
/// lease to `destination`.
pub fn context_close_instruction(context: &AccountId, authority: &AccountId, destination: &AccountId) -> (r:
    Instruction)
    ensures
        r == close_ix_of(context.bytes@, authority.bytes@, destination.bytes@),
{
    close_context(&context.bytes, &authority.bytes, &destination.bytes)
}

/// The instructions that create the planned associated account, make room for
/// its confidential extension, and configure it for confidential transfers
/// with the pending-credit bound, referencing its proof in `context`. The
/// stored available balance starts as an encryption of zero under the
/// account's key; `payer` funds the new account.
pub fn account_config_instructions(plan: &AccountConfigPlan, payer: &AccountId, context: &AccountId) -> (r:
    Result<Vec<Instruction>, ConfidentialError>)
    ensures
        r is Ok,
        r->Ok_0@.len() == 3,
        r->Ok_0@[0] == create_account_ix_of(payer.bytes@, plan.wallet.bytes@, plan.mint.bytes@),
        r->Ok_0@[1] == reallocate_ix_of(plan.token_account.bytes@, payer.bytes@, plan.wallet.bytes@),
        exists|zero: Seq<u8>|
            ae_decryption_of(plan.keys.aes.bytes@, zero) == Some(0u64) && r->Ok_0@[2]
                == #[trigger] configure_ix_of(
                plan.token_account.bytes@,
                plan.mint.bytes@,
                zero,
                MAX_PENDING_CREDITS,
                plan.wallet.bytes@,
                context.bytes@,
            ),
{
    let zero = ae_encrypt(&plan.keys.aes.bytes, 0);
    let reallocate = match reallocate_for_confidential(
        &plan.token_account.bytes,
        &payer.bytes,
        &plan.wallet.bytes,
    ) {
        Some(ix) => ix,
        None => return Err(ConfidentialError::InstructionEncodingFailure),
    };
    let configure = match configure_account_instruction(
        &plan.token_account.bytes,
        &plan.mint.bytes,
        &zero,
        MAX_PENDING_CREDITS,
        &plan.wallet.bytes,
        &context.bytes,
    ) {
        Some(ix) => ix,
        None => return Err(ConfidentialError::InstructionEncodingFailure),
    };
    let mut ixs: Vec<Instruction> = Vec::new();
    ixs.push(create_associated_account(&payer.bytes, &plan.wallet.bytes, &plan.mint.bytes));
    ixs.push(reallocate);
    ixs.push(configure);
    Ok(ixs)
}

/// The instruction that deposits the planned amount of `mint` tokens.
pub fn deposit_instructions(plan: &DepositPlan, mint: &AccountId) -> (r: Result<
    Instruction,
    ConfidentialError,
>)
    ensures
        r == Ok::<Instruction, ConfidentialError>(
            deposit_ix_of(
                plan.token_account.bytes@,
                mint.bytes@,
                plan.amount,
                plan.decimals,
                plan.wallet.bytes@,
            ),
        ),
{
    match deposit_instruction(&plan.token_account.bytes, &mint.bytes, plan.amount, plan.decimals, &plan.wallet.bytes) {
        Some(ix) => Ok(ix),
        None => Err(ConfidentialError::InstructionEncodingFailure),
    }
}

/// The instruction that applies the pending balance of the planned account,
/// given its decrypted balances: none when no credit is pending (applying is
/// then a no-op), else the instruction that stores the new available balance,
/// `available + pending`, encrypted under the account's key.
pub fn apply_pending_instructions(plan: &ApplyPendingPlan, balances: &DecryptedBalances) -> (r: Result<
    Option<Instruction>,
    ConfidentialError,
>)
    ensures
        balances.credits == 0 <==> r == Ok::<Option<Instruction>, ConfidentialError>(None),
        balances.credits != 0 && balances.available + balances.pending > u64::MAX ==> r == Err::<
            Option<Instruction>,
            ConfidentialError,
        >(ConfidentialError::BalanceOverflow),
        balances.credits != 0 && balances.available + balances.pending <= u64::MAX ==> exists|
            z: Seq<u8>,
        |
            ae_decryption_of(plan.keys.aes.bytes@, z) == Some((balances.available
                + balances.pending) as u64) && r == Ok::<Option<Instruction>, ConfidentialError>(
                Some(
                    #[trigger] apply_ix_of(
                        plan.token_account.bytes@,
                        balances.credits,
                        z,
                        plan.wallet.bytes@,
                    ),
                ),
            ),
{
    if balances.credits == 0 {
        return Ok(None);
    }
    if balances.pending > u64::MAX - balances.available {
        return Err(ConfidentialError::BalanceOverflow);
    }
    let new_available = ae_encrypt(&plan.keys.aes.bytes, balances.available + balances.pending);
    match apply_pending_instruction(&plan.token_account.bytes, balances.credits, &new_available, &plan.wallet.bytes) {
        Some(ix) => Ok(Some(ix)),
        None => Err(ConfidentialError::InstructionEncodingFailure),
    }
}

/// The guarded transfer, referencing the contexts of its equality,
/// ciphertext-validity and range proofs, in that order.
pub fn transfer_operation_instructions(
    plan: &TransferPlan,
    state: &ConfidentialTransferAccount,
    mint: &AccountId,
    contexts: &Vec<AccountId>,
) -> (r: Result<Vec<Instruction>, ConfidentialError>)
    requires
        plan.bundle.wf(),
        plan.bundle.kind == OperationKind::Transfer,
        contexts@.len() == plan.bundle.proofs@.len(),
    ensures
        r matches Err(e) ==> e == ConfidentialError::DecryptionFailure || e
            == ConfidentialError::InstructionEncodingFailure,
        r is Ok ==> exists|balance: Seq<u8>, lo: Seq<u8>, hi: Seq<u8>|
            r->Ok_0@ == seq![
                #[trigger] transfer_ix_of(
                    plan.sender_account.bytes@,
                    mint.bytes@,
                    plan.recipient_account.bytes@,
                    balance,
                    lo,
                    hi,
                    plan.sender_wallet.bytes@,
                    contexts@[0].bytes@,
                    contexts@[1].bytes@,
                    contexts@[2].bytes@,
                ),
            ],
{
    proof {
        assert(plan.bundle.proofs@[1].kind_spec() == required_kinds(OperationKind::Transfer)[1]);
        assert(plan.bundle.proofs@[1].kind_spec() == SubProofKind::CiphertextValidity);
    }
    let validity = match &plan.bundle.proofs[1] {
        SubProof::CiphertextValidity(v) => v,
        _ => {
            assert(false);
            return Err(ConfidentialError::InstructionEncodingFailure);
        },
    };
    let (lo, hi) = match auditor_ciphertexts(validity) {
        Some(c) => c,
        None => return Err(ConfidentialError::InstructionEncodingFailure),
    };
    let balance = match balance_after_transfer(state, plan.amount, &plan.keys.aes.bytes) {
        Some(b) => b,
        None => return Err(ConfidentialError::DecryptionFailure),
    };
    let ids = [contexts[0].bytes, contexts[1].bytes, contexts[2].bytes];
    match transfer_instruction(
        &plan.sender_account.bytes,
        &mint.bytes,
        &plan.recipient_account.bytes,
        &balance,
        &lo,
        &hi,
        &plan.sender_wallet.bytes,
        &ids,
    ) {
        Some(ix) => {
            let mut ixs: Vec<Instruction> = Vec::new();
            ixs.push(ix);
            assert(ixs@ =~= seq![ix]);
            Ok(ixs)
        },
        None => Err(ConfidentialError::InstructionEncodingFailure),
    }
}

/// The guarded withdrawal, referencing the contexts of its equality and range
/// proofs, in that order. The new available balance is re-encrypted under the
/// account's key.
pub fn withdraw_operation_instructions(
    plan: &WithdrawPlan,
    state: &ConfidentialTransferAccount,
    mint: &AccountId,
    contexts: &Vec<AccountId>,
) -> (r: Result<Vec<Instruction>, ConfidentialError>)
    requires
        plan.bundle.wf(),
        plan.bundle.kind == OperationKind::Withdraw,
        contexts@.len() == plan.bundle.proofs@.len(),
    ensures
        r matches Err(e) ==> e == ConfidentialError::DecryptionFailure,
        r is Ok ==> exists|balance: Seq<u8>|
            r->Ok_0@ == seq![
                #[trigger] withdraw_ix_of(
                    plan.token_account.bytes@,
                    mint.bytes@,
                    plan.amount,
                    plan.decimals,
                    balance,
                    plan.wallet.bytes@,
                    contexts@[0].bytes@,
                    contexts@[1].bytes@,
                ),
            ],
{
    let balance = match balance_after_withdraw(state, plan.amount, &plan.keys.aes.bytes) {
        Some(b) => b,
        None => return Err(ConfidentialError::DecryptionFailure),
    };
    match withdraw_instruction(
        &plan.token_account.bytes,
        &mint.bytes,
        plan.amount,
        plan.decimals,
        &balance,
        &plan.wallet.bytes,
        &contexts[0].bytes,
        &contexts[1].bytes,
    ) {
        Some(ix) => {
            let mut ixs: Vec<Instruction> = Vec::new();
            ixs.push(ix);
            assert(ixs@ =~= seq![ix]);
            Ok(ixs)
        },
        None => Err(ConfidentialError::InstructionEncodingFailure),
    }
}

} // verus!
