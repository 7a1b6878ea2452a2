use vstd::prelude::*;
use crate::error::ConfidentialError;
use crate::keys::{AesKey, ElGamalKeys};
use spl_token_2022::extension::confidential_transfer::account_info::{
    TransferAccountInfo, WithdrawAccountInfo,
};
use spl_token_2022::extension::confidential_transfer::ConfidentialTransferAccount;
use spl_token_2022::extension::{BaseStateWithExtensions, StateWithExtensions};
use spl_token_2022::solana_zk_sdk::encryption::auth_encryption::AeKey;
use spl_token_2022::solana_zk_sdk::encryption::elgamal::{ElGamalKeypair, ElGamalPubkey};
use spl_token_2022::solana_zk_sdk::zk_elgamal_proof_program::proof_data::{
    BatchedRangeProofU128Data, BatchedRangeProofU64Data, CiphertextCommitmentEqualityProofData,
    PubkeyValidityProofData,
};
use spl_token_confidential_transfer_proof_generation::CiphertextValidityProofWithAuditorCiphertext;

verus! {

#[verifier::external_type_specification]
#[verifier::external_body]
pub struct ExConfidentialTransferAccount(ConfidentialTransferAccount);

#[verifier::external_type_specification]
#[verifier::external_body]
pub struct ExPubkeyValidityProofData(PubkeyValidityProofData);

#[verifier::external_type_specification]
#[verifier::external_body]
pub struct ExCiphertextCommitmentEqualityProofData(CiphertextCommitmentEqualityProofData);

#[verifier::external_type_specification]
#[verifier::external_body]
pub struct ExCiphertextValidityProofWithAuditorCiphertext(
    CiphertextValidityProofWithAuditorCiphertext,
);

#[verifier::external_type_specification]
#[verifier::external_body]
pub struct ExBatchedRangeProofU128Data(BatchedRangeProofU128Data);

#[verifier::external_type_specification]
#[verifier::external_body]
pub struct ExBatchedRangeProofU64Data(BatchedRangeProofU64Data);

/// The largest transfer amount that the range proof can cover: the amount is
/// split into a 16-bit low part and a 32-bit high part, so 48 bits in all.
pub const MAX_TRANSFER_AMOUNT: u64 = 0xffff_ffff_ffff;

/// The operation that a proof bundle authorizes.
#[derive(Clone, Copy, Debug, PartialEq, Eq, Structural)]
pub enum OperationKind {
    AccountConfig,
    Transfer,
    Withdraw,
}

/// The statement that a sub-proof attests.
#[derive(Clone, Copy, Debug, PartialEq, Eq, Structural)]
pub enum SubProofKind {
    PubkeyValidity,
    Equality,
    CiphertextValidity,
    Range,
}

/// One sub-proof: an opaque payload of the proof system, tagged by its kind.
pub enum SubProof {
    PubkeyValidity(PubkeyValidityProofData),
    Equality(CiphertextCommitmentEqualityProofData),
    CiphertextValidity(CiphertextValidityProofWithAuditorCiphertext),
    TransferRange(BatchedRangeProofU128Data),
    WithdrawRange(BatchedRangeProofU64Data),
}

impl SubProof {
    pub open spec fn kind_spec(&self) -> SubProofKind {
        match self {
            SubProof::PubkeyValidity(_) => SubProofKind::PubkeyValidity,
            SubProof::Equality(_) => SubProofKind::Equality,
            SubProof::CiphertextValidity(_) => SubProofKind::CiphertextValidity,
            SubProof::TransferRange(_) => SubProofKind::Range,
            SubProof::WithdrawRange(_) => SubProofKind::Range,
        }
    }

    /// The statement this sub-proof attests.
    pub fn kind(&self) -> (r: SubProofKind)
        ensures
            r == self.kind_spec(),
    {
        match self {
            SubProof::PubkeyValidity(_) => SubProofKind::PubkeyValidity,
            SubProof::Equality(_) => SubProofKind::Equality,
            SubProof::CiphertextValidity(_) => SubProofKind::CiphertextValidity,
            SubProof::TransferRange(_) => SubProofKind::Range,
            SubProof::WithdrawRange(_) => SubProofKind::Range,
        }
    }
}

/// The sub-proofs an operation requires, in the order their contexts are staged.
pub open spec fn required_kinds(kind: OperationKind) -> Seq<SubProofKind> {
    match kind {
        OperationKind::AccountConfig => seq![SubProofKind::PubkeyValidity],
        OperationKind::Transfer => seq![
            SubProofKind::Equality,
            SubProofKind::CiphertextValidity,
            SubProofKind::Range,
        ],
        OperationKind::Withdraw => seq![SubProofKind::Equality, SubProofKind::Range],
    }
}

/// The proofs that authorize one operation.
pub struct ProofBundle {
    pub kind: OperationKind,
    pub proofs: Vec<SubProof>,
}

impl ProofBundle {
    /// A bundle carries exactly the sub-proofs its operation requires, in order.
    pub open spec fn wf(&self) -> bool {
        &&& self.proofs@.len() == required_kinds(self.kind).len()
        &&& forall|i: int|
            0 <= i < self.proofs@.len() ==> #[trigger] self.proofs@[i].kind_spec()
                == required_kinds(self.kind)[i]
    }

    /// The number of sub-proofs, which is the number of contexts a run stages.
    pub fn len(&self) -> (r: usize)
        ensures
            r == self.proofs@.len(),
    {
        self.proofs.len()
    }

    /// The kinds of the sub-proofs, in order.
    pub fn kinds(&self) -> (r: Vec<SubProofKind>)
        ensures
            r@.len() == self.proofs@.len(),
            forall|i: int| 0 <= i < r@.len() ==> r@[i] == #[trigger] self.proofs@[i].kind_spec(),
    {
        let mut out: Vec<SubProofKind> = Vec::new();
        let mut i: usize = 0;
        while i < self.proofs.len()
            invariant
                0 <= i <= self.proofs@.len(),
                out@.len() == i,
                forall|j: int| 0 <= j < i ==> out@[j] == #[trigger] self.proofs@[j].kind_spec(),
            decreases self.proofs@.len() - i,
        {
            out.push(self.proofs[i].kind());
            i = i + 1;
        }
        out
    }
}

/// Whether raw account data is an initialized token account that carries the
/// confidential-transfer extension.
pub uninterp spec fn holds_confidential_account(data: Seq<u8>) -> bool;

/// Relies on `StateWithExtensions::<Account>::unpack` and `get_extension`: the
/// confidential-transfer extension of a token account's data, if the data is an
/// initialized token account that carries it.
#[verifier::external_body]
fn unpack_confidential_account(data: &[u8]) -> (r: Option<ConfidentialTransferAccount>)
    ensures
        r is Some <==> holds_confidential_account(data@),
{
    let state = StateWithExtensions::<spl_token_2022::state::Account>::unpack(data).ok()?;
    state.get_extension::<ConfidentialTransferAccount>().ok().copied()
}

/// Reads the confidential-transfer state of a token account from its raw data.
pub fn read_confidential_account(data: &Vec<u8>) -> (r: Result<
    ConfidentialTransferAccount,
    ConfidentialError,
>)
    ensures
        r is Ok <==> holds_confidential_account(data@),
        r matches Err(e) ==> e == ConfidentialError::AccountNotFound,
{
    match unpack_confidential_account(data.as_slice()) {
        Some(account) => Ok(account),
        None => Err(ConfidentialError::AccountNotFound),
    }
}

/// Relies on `PubkeyValidityProofData::new`, after reading the keypair from its
/// bytes. The proof is randomized; nothing is stated of it.
#[verifier::external_body]
fn pubkey_validity_proof_data(keys: &[u8; 64]) -> (r: Option<PubkeyValidityProofData>) {
    let keypair = ElGamalKeypair::try_from(&keys[..]).ok()?;
    PubkeyValidityProofData::new(&keypair).ok()
}

/// Relies on `TransferAccountInfo::generate_split_transfer_proof_data`, after
/// reading the keys from their bytes. The proofs are randomized; nothing is
/// stated of them.
#[verifier::external_body]
fn split_transfer_proof_data(
    account: &ConfidentialTransferAccount,
    amount: u64,
    keys: &[u8; 64],
    aes: &[u8; 16],
    recipient: &[u8; 32],
    auditor: Option<&[u8; 32]>,
) -> (r: Option<
    (
        CiphertextCommitmentEqualityProofData,
        CiphertextValidityProofWithAuditorCiphertext,
        BatchedRangeProofU128Data,
    ),
>) {
    let keypair = ElGamalKeypair::try_from(&keys[..]).ok()?;
    let recipient = ElGamalPubkey::try_from(&recipient[..]).ok()?;
    let auditor = match auditor {
        Some(a) => Some(ElGamalPubkey::try_from(&a[..]).ok()?),
        None => None,
    };
    let data = TransferAccountInfo::new(account).generate_split_transfer_proof_data(
        amount, &keypair, &AeKey::from(*aes), &recipient, auditor.as_ref()).ok()?;
    Some((data.equality_proof_data, data.ciphertext_validity_proof_data_with_ciphertext,
        data.range_proof_data))
}

/// Relies on `WithdrawAccountInfo::generate_proof_data`, after reading the keys
/// from their bytes. The proofs are randomized; nothing is stated of them.
#[verifier::external_body]
fn withdraw_proof_data(
    account: &ConfidentialTransferAccount,
    amount: u64,
    keys: &[u8; 64],
    aes: &[u8; 16],
) -> (r: Option<(CiphertextCommitmentEqualityProofData, BatchedRangeProofU64Data)>) {
    let keypair = ElGamalKeypair::try_from(&keys[..]).ok()?;
    let data = WithdrawAccountInfo::new(account).generate_proof_data(
        amount, &keypair, &AeKey::from(*aes)).ok()?;
    Some((data.equality_proof_data, data.range_proof_data))
}

/// Whether `r` is a well-formed bundle for `kind` or a proof-generation failure.
pub open spec fn bundle_or_failure(
    r: Result<ProofBundle, ConfidentialError>,
    kind: OperationKind,
) -> bool {
    match r {
        Ok(b) => b.kind == kind && b.wf(),
        Err(e) => e == ConfidentialError::ProofGenerationFailure,
    }
}

/// Proves that the ElGamal public key is well formed and that its secret is known.
pub fn generate_pubkey_validity_proof(elgamal_keypair: &ElGamalKeys) -> (r: Result<
    ProofBundle,
    ConfidentialError,
>)
    ensures
        bundle_or_failure(r, OperationKind::AccountConfig),
        r matches Ok(b) ==> b.proofs@.len() == 1,
{
    match pubkey_validity_proof_data(&elgamal_keypair.bytes) {
        Some(data) => {
            let mut proofs: Vec<SubProof> = Vec::new();
            proofs.push(SubProof::PubkeyValidity(data));
            Ok(ProofBundle { kind: OperationKind::AccountConfig, proofs })
        },
        None => Err(ConfidentialError::ProofGenerationFailure),
    }
}

/// Proves a confidential transfer of `amount`: equality of the debited and
/// credited amounts, validity of the ciphertexts, and the amount's range.
///
/// An amount above the provable range fails with `AmountOutOfRange` before any
/// proof is attempted.
pub fn generate_transfer_proof(
    transfer_account_info: &ConfidentialTransferAccount,
    amount: u64,
    sender_elgamal_keypair: &ElGamalKeys,
    sender_aes_key: &AesKey,
    recipient_elgamal_pubkey: &[u8; 32],
    auditor_elgamal_pubkey: Option<&[u8; 32]>,
) -> (r: Result<ProofBundle, ConfidentialError>)
    ensures
        amount > MAX_TRANSFER_AMOUNT ==> r == Err::<ProofBundle, ConfidentialError>(
            ConfidentialError::AmountOutOfRange,
        ),
        amount <= MAX_TRANSFER_AMOUNT ==> bundle_or_failure(r, OperationKind::Transfer),
        r matches Ok(b) ==> b.proofs@.len() == 3,
{
    if amount > MAX_TRANSFER_AMOUNT {
        return Err(ConfidentialError::AmountOutOfRange);
    }
    match split_transfer_proof_data(
        transfer_account_info,
        amount,
        &sender_elgamal_keypair.bytes,
        &sender_aes_key.bytes,
        recipient_elgamal_pubkey,
        auditor_elgamal_pubkey,
    ) {
        Some((equality, validity, range)) => {
            let mut proofs: Vec<SubProof> = Vec::new();
            proofs.push(SubProof::Equality(equality));
            proofs.push(SubProof::CiphertextValidity(validity));
            proofs.push(SubProof::TransferRange(range));
            Ok(ProofBundle { kind: OperationKind::Transfer, proofs })
        },
        None => Err(ConfidentialError::ProofGenerationFailure),
    }
}

/// Proves a withdrawal of `amount`: equality of the plaintext and the debited
/// ciphertext, and the range of the remaining balance.
pub fn generate_withdraw_proof(
    withdraw_account_info: &ConfidentialTransferAccount,
    amount: u64,
    elgamal_keypair: &ElGamalKeys,
    aes_key: &AesKey,
) -> (r: Result<ProofBundle, ConfidentialError>)
    ensures
        bundle_or_failure(r, OperationKind::Withdraw),
        r matches Ok(b) ==> b.proofs@.len() == 2,
{
    match withdraw_proof_data(withdraw_account_info, amount, &elgamal_keypair.bytes, &aes_key.bytes) {
        Some((equality, range)) => {
            let mut proofs: Vec<SubProof> = Vec::new();
            proofs.push(SubProof::Equality(equality));
            proofs.push(SubProof::WithdrawRange(range));
            Ok(ProofBundle { kind: OperationKind::Withdraw, proofs })
        },
        None => Err(ConfidentialError::ProofGenerationFailure),
    }
}

/// Every well-formed bundle carries exactly as many sub-proofs as its
/// operation requires: one for account configuration, three for a transfer,
/// two for a withdrawal.
pub proof fn lemma_bundle_sizes(b: ProofBundle)
    requires
        b.wf(),
    ensures
        b.kind == OperationKind::AccountConfig ==> b.proofs@.len() == 1,
        b.kind == OperationKind::Transfer ==> b.proofs@.len() == 3,
        b.kind == OperationKind::Withdraw ==> b.proofs@.len() == 2,
{
}

} // verus!
