use vstd::prelude::*;

verus! {

/// Failures surfaced by the confidential-balance engine.
///
/// Ledger-submission failures carry the message that the ledger client gave.
/// Cleanup failures are never a result: they are only counted by the run.
#[derive(Debug, Clone, PartialEq, Eq)]
pub enum ConfidentialError {
    /// A malformed address or key was given; the caller must fix its input.
    InvalidIdentifier,
    /// The target ledger account does not exist.
    AccountNotFound,
    /// The key expansion rejected the seed or the signer.
    KeyDerivationFailure,
    /// The proof system could not build a proof from the given inputs.
    ProofGenerationFailure,
    /// The amount exceeds the bit width that the range proof can cover.
    AmountOutOfRange,
    /// A stored balance ciphertext did not decrypt under the account's key.
    DecryptionFailure,
    /// A balance sum would exceed `u64::MAX`.
    BalanceOverflow,
    /// The token program's instruction builder rejected its inputs.
    InstructionEncodingFailure,
    /// Creating the proof context at `index` failed on the ledger.
    ContextCreationFailed { index: usize, message: String },
    /// The guarded operation failed on the ledger.
    OperationSubmissionFailed { message: String },
}

impl ConfidentialError {
    /// Whether the failure is the caller's fault (a 4xx class response).
    pub fn is_client_error(&self) -> (r: bool)
        ensures
            r == (self is InvalidIdentifier || self is AccountNotFound),
    {
        match self {
            ConfidentialError::InvalidIdentifier => true,
            ConfidentialError::AccountNotFound => true,
            _ => false,
        }
    }
}

/// A human-readable description of a failure.
pub open spec fn description(e: ConfidentialError) -> Seq<char> {
    match e {
        ConfidentialError::InvalidIdentifier => "invalid identifier"@,
        ConfidentialError::AccountNotFound => "account not found"@,
        ConfidentialError::KeyDerivationFailure => "key derivation failed"@,
        ConfidentialError::ProofGenerationFailure => "proof generation failed"@,
        ConfidentialError::AmountOutOfRange => "amount out of range"@,
        ConfidentialError::DecryptionFailure => "balance decryption failed"@,
        ConfidentialError::BalanceOverflow => "balance overflow"@,
        ConfidentialError::InstructionEncodingFailure => "instruction encoding failed"@,
        ConfidentialError::ContextCreationFailed { message, .. } => "proof context creation failed: "@
            + message@,
        ConfidentialError::OperationSubmissionFailed { message } => "operation submission failed: "@
            + message@,
    }
}

impl ConfidentialError {
    /// A human-readable description of the failure.
    pub fn describe(&self) -> (r: String)
        ensures
            r@ == description(*self),
    {
        proof {
            reveal_strlit("invalid identifier");
            reveal_strlit("account not found");
            reveal_strlit("key derivation failed");
            reveal_strlit("proof generation failed");
            reveal_strlit("amount out of range");
            reveal_strlit("balance decryption failed");
            reveal_strlit("instruction encoding failed");
            reveal_strlit("balance overflow");
            reveal_strlit("proof context creation failed: ");
            reveal_strlit("operation submission failed: ");
        }
        match self {
            ConfidentialError::InvalidIdentifier => String::from_str("invalid identifier"),
            ConfidentialError::AccountNotFound => String::from_str("account not found"),
            ConfidentialError::KeyDerivationFailure => String::from_str("key derivation failed"),
            ConfidentialError::ProofGenerationFailure => String::from_str("proof generation failed"),
            ConfidentialError::AmountOutOfRange => String::from_str("amount out of range"),
            ConfidentialError::DecryptionFailure => String::from_str("balance decryption failed"),
            ConfidentialError::BalanceOverflow => String::from_str("balance overflow"),
            ConfidentialError::InstructionEncodingFailure => String::from_str(
                "instruction encoding failed",
            ),
            ConfidentialError::ContextCreationFailed { message, .. } => {
                let mut s = String::from_str("proof context creation failed: ");
                s.append(message.as_str());
                s
            },
            ConfidentialError::OperationSubmissionFailed { message } => {
                let mut s = String::from_str("operation submission failed: ");
                s.append(message.as_str());
                s
            },
        }
    }
}

} // verus!
