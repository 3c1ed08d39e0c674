//! Request bodies and response payloads of each operation, as plain values.

use vstd::prelude::*;

verus! {

/// The success envelope around an operation's payload.
pub struct SuccessResponse<T> {
    pub success: bool,
    pub data: T,
}

impl<T> SuccessResponse<T> {
    pub fn new(data: T) -> (r: SuccessResponse<T>)
        ensures
            r.success,
            r.data == data,
    {
        SuccessResponse { success: true, data }
    }
}

/// The error envelope.
pub struct ErrorResponse {
    pub success: bool,
    pub error: String,
}

pub struct KeypairResponse {
    pub pubkey: String,
    pub secret: String,
}

/// One account of an instruction, in text form.
pub struct AccountMetaResponse {
    pub pubkey: String,
    pub is_signer: bool,
    pub is_writable: bool,
}

pub struct TokenInstructionResponse {
    pub program_id: String,
    pub accounts: Vec<AccountMetaResponse>,
    /// The instruction's payload in base64.
    pub instruction_data: String,
}

pub struct CreateTokenRequest {
    pub mint: String,
    pub mint_authority: String,
    pub decimals: u8,
}

pub struct MintTokenRequest {
    pub mint: String,
    pub destination: String,
    pub authority: String,
    pub amount: u64,
}

pub struct SignMessageRequest {
    pub message: String,
    pub secret: String,
}

pub struct MintInstructionResponse {
    pub program_id: String,
    pub accounts: Vec<AccountMetaResponse>,
    pub instruction_data: String,
}

pub struct SignMessageResponse {
    pub signature: String,
    pub public_key: String,
    pub message: String,
}

pub struct VerifyMessageRequest {
    pub message: String,
    pub signature: String,
    pub pubkey: String,
}

pub struct VerifyMessageResponse {
    pub valid: bool,
    pub message: String,
    pub pubkey: String,
}

pub struct SendSolRequest {
    pub from: String,
    pub to: String,
    pub lamports: u64,
}

pub struct SendSolResponse {
    pub program_id: String,
    /// The accounts' keys in base58, in the instruction's order.
    pub accounts: Vec<String>,
    pub instruction_data: String,
}

pub struct SendTokenRequest {
    pub destination: String,
    pub mint: String,
    pub owner: String,
    pub amount: u64,
}

/// One account of an instruction, without its writable flag.
pub struct AccountMetaSimple {
    pub pubkey: String,
    pub is_signer: bool,
}

pub struct SendTokenResponse {
    pub program_id: String,
    pub accounts: Vec<AccountMetaSimple>,
    pub instruction_data: String,
}

} // verus!
