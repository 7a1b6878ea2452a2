use vstd::prelude::*;

verus! {

/// A request to create a confidential token account for a wallet and mint.
#[derive(Debug, Clone)]
pub struct CreateAccountRequest {
    pub wallet_address: String,
    pub mint_address: String,
}

/// The answer to an account creation.
#[derive(Debug, Clone)]
pub struct CreateAccountResponse {
    pub success: bool,
    pub token_account: String,
    pub signature: String,
    pub error: Option<String>,
}

/// A request to move public balance into the pending confidential balance.
#[derive(Debug, Clone)]
pub struct DepositRequest {
    pub wallet_address: String,
    pub token_account: String,
    pub amount: u64,
    pub decimals: u8,
}

/// The answer to a deposit.
#[derive(Debug, Clone)]
pub struct DepositResponse {
    pub success: bool,
    pub signature: String,
    pub error: Option<String>,
}

/// A request to apply the pending balance to the available balance.
#[derive(Debug, Clone)]
pub struct ApplyPendingRequest {
    pub wallet_address: String,
    pub token_account: String,
}

/// The answer to an apply.
#[derive(Debug, Clone)]
pub struct ApplyPendingResponse {
    pub success: bool,
    pub signature: String,
    pub error: Option<String>,
}

/// A request for a confidential transfer between two token accounts.
#[derive(Debug, Clone)]
pub struct TransferRequest {
    pub sender_wallet: String,
    pub sender_token_account: String,
    pub recipient_token_account: String,
    pub recipient_elgamal_pubkey: String,
    pub amount: u64,
}

/// The answer to a confidential transfer.
#[derive(Debug, Clone)]
pub struct TransferResponse {
    pub success: bool,
    pub signature: String,
    pub error: Option<String>,
}

/// A request to move available confidential balance back to the public balance.
#[derive(Debug, Clone)]
pub struct WithdrawRequest {
    pub wallet_address: String,
    pub token_account: String,
    pub amount: u64,
    pub decimals: u8,
}

/// The answer to a withdrawal.
#[derive(Debug, Clone)]
pub struct WithdrawResponse {
    pub success: bool,
    pub signature: String,
    pub error: Option<String>,
}

/// A request for an eligibility attestation against a threshold.
#[derive(Debug, Clone)]
pub struct GenerateProofRequest {
    pub wallet_address: String,
    pub token_account: String,
    pub threshold: u64,
}

/// The answer to an eligibility request.
#[derive(Debug, Clone)]
pub struct GenerateProofResponse {
    pub success: bool,
    pub proof: String,
    pub public_inputs: Vec<String>,
    pub eligible: bool,
    pub error: Option<String>,
}

/// A request for the balances of a token account.
#[derive(Debug, Clone)]
pub struct GetBalanceRequest {
    pub wallet_address: String,
    pub token_account: String,
}

/// The balances of a token account.
#[derive(Debug, Clone)]
pub struct GetBalanceResponse {
    pub success: bool,
    pub available_balance: u64,
    pub pending_balance: u64,
    pub decrypted_available: Option<u64>,
    pub error: Option<String>,
}

} // verus!
