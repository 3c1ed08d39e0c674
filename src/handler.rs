//! The operations of the service: each validates its request in a fixed
//! order, stops at the first failure with a bad-request error that names the
//! offending field, and otherwise builds and encodes its result.

use vstd::prelude::*;
use vstd::string::*;
use vstd::utf8::encode_utf8;
use crate::codec::{
    base58_decoded, base58_encode, base58_encoded, base64_decoded, base64_encode,
    base64_encoded, base58_decode, decode_base58_key, decode_base64, decoded_key, to_array64,
};
use crate::error::ApiError;
use crate::identity::{
    blank, ed25519_signature, ed25519_verifies, is_blank, is_keypair, keypair_accepts, keypair_new,
    sign_bytes, signature_verifies,
};
use crate::instruction::{
    associated_token_address, initialize_mint, initialize_mint_model, mint_to, mint_to_model,
    native_transfer, native_transfer_model, token_transfer, token_transfer_model, AccountModel,
    Instruction, InstructionModel,
};
use crate::response::{
    AccountMetaResponse, AccountMetaSimple, CreateTokenRequest, KeypairResponse,
    MintInstructionResponse, MintTokenRequest, SendSolRequest, SendSolResponse, SendTokenRequest,
    SendTokenResponse, SignMessageRequest, SignMessageResponse, TokenInstructionResponse,
    VerifyMessageRequest, VerifyMessageResponse,
};

verus! {

/// `r` is a bad-request error with the message `msg`.
pub open spec fn is_bad_request<T>(r: Result<T, ApiError>, msg: Seq<char>) -> bool {
    r matches Err(ApiError::BadRequest(m)) && m@ == msg
}

/// The responses list the accounts in order, each key in base58, with both flags.
pub open spec fn describes_accounts(r: Seq<AccountMetaResponse>, m: Seq<AccountModel>) -> bool {
    &&& r.len() == m.len()
    &&& forall|i: int|
        0 <= i < r.len() ==> {
            &&& (#[trigger] r[i]).pubkey@ == base58_encoded(m[i].key)
            &&& r[i].is_signer == m[i].is_signer
            &&& r[i].is_writable == m[i].is_writable
        }
}

/// The texts list the accounts' keys in order, in base58.
pub open spec fn describes_keys(r: Seq<String>, m: Seq<AccountModel>) -> bool {
    &&& r.len() == m.len()
    &&& forall|i: int| 0 <= i < r.len() ==> (#[trigger] r[i])@ == base58_encoded(m[i].key)
}

/// The responses list the accounts in order, each key in base58, with its signer flag.
pub open spec fn describes_signers(r: Seq<AccountMetaSimple>, m: Seq<AccountModel>) -> bool {
    &&& r.len() == m.len()
    &&& forall|i: int|
        0 <= i < r.len() ==> {
            &&& (#[trigger] r[i]).pubkey@ == base58_encoded(m[i].key)
            &&& r[i].is_signer == m[i].is_signer
        }
}

pub open spec fn describes_token_instruction(
    r: TokenInstructionResponse,
    ix: InstructionModel,
) -> bool {
    &&& r.program_id@ == base58_encoded(ix.program_id)
    &&& describes_accounts(r.accounts@, ix.accounts)
    &&& r.instruction_data@ == base64_encoded(ix.data)
    &&& base64_decoded(r.instruction_data@) == Some(ix.data)
}

pub open spec fn describes_mint_instruction(
    r: MintInstructionResponse,
    ix: InstructionModel,
) -> bool {
    &&& r.program_id@ == base58_encoded(ix.program_id)
    &&& describes_accounts(r.accounts@, ix.accounts)
    &&& r.instruction_data@ == base64_encoded(ix.data)
    &&& base64_decoded(r.instruction_data@) == Some(ix.data)
}

pub open spec fn describes_send_sol(r: SendSolResponse, ix: InstructionModel) -> bool {
    &&& r.program_id@ == base58_encoded(ix.program_id)
    &&& describes_keys(r.accounts@, ix.accounts)
    &&& r.instruction_data@ == base64_encoded(ix.data)
    &&& base64_decoded(r.instruction_data@) == Some(ix.data)
}

pub open spec fn describes_send_token(r: SendTokenResponse, ix: InstructionModel) -> bool {
    &&& r.program_id@ == base58_encoded(ix.program_id)
    &&& describes_signers(r.accounts@, ix.accounts)
    &&& r.instruction_data@ == base64_encoded(ix.data)
    &&& base64_decoded(r.instruction_data@) == Some(ix.data)
}

fn bad_request(msg: &str) -> (r: ApiError)
    ensures
        r matches ApiError::BadRequest(m) && m@ == msg@,
{
    ApiError::BadRequest(String::from_str(msg))
}

/// The accounts of an instruction, with keys in base58 and both flags.
pub fn account_responses(ix: &Instruction) -> (r: Vec<AccountMetaResponse>)
    ensures
        describes_accounts(r@, ix@.accounts),
{
    let mut out: Vec<AccountMetaResponse> = Vec::new();
    let mut i: usize = 0;
    while i < ix.accounts.len()
        invariant
            i <= ix.accounts@.len(),
            describes_accounts(out@, ix@.accounts.take(i as int)),
        decreases ix.accounts@.len() - i,
    {
        let a = ix.accounts[i];
        let pubkey = base58_encode(a.pubkey.as_slice());
        out.push(AccountMetaResponse { pubkey, is_signer: a.is_signer, is_writable: a.is_writable });
        i = i + 1;
        assert(ix@.accounts.take(i as int) =~= ix@.accounts.take(i - 1).push(ix.accounts@[i - 1]@));
    }
    assert(ix@.accounts.take(i as int) =~= ix@.accounts);
    out
}

/// The keys of an instruction's accounts, in base58.
pub fn account_keys(ix: &Instruction) -> (r: Vec<String>)
    ensures
        describes_keys(r@, ix@.accounts),
{
    let mut out: Vec<String> = Vec::new();
    let mut i: usize = 0;
    while i < ix.accounts.len()
        invariant
            i <= ix.accounts@.len(),
            describes_keys(out@, ix@.accounts.take(i as int)),
        decreases ix.accounts@.len() - i,
    {
        let a = ix.accounts[i];
        out.push(base58_encode(a.pubkey.as_slice()));
        i = i + 1;
        assert(ix@.accounts.take(i as int) =~= ix@.accounts.take(i - 1).push(ix.accounts@[i - 1]@));
    }
    assert(ix@.accounts.take(i as int) =~= ix@.accounts);
    out
}

/// The accounts of an instruction, with keys in base58 and the signer flag.
pub fn account_signers(ix: &Instruction) -> (r: Vec<AccountMetaSimple>)
    ensures
        describes_signers(r@, ix@.accounts),
{
    let mut out: Vec<AccountMetaSimple> = Vec::new();
    let mut i: usize = 0;
    while i < ix.accounts.len()
        invariant
            i <= ix.accounts@.len(),
            describes_signers(out@, ix@.accounts.take(i as int)),
        decreases ix.accounts@.len() - i,
    {
        let a = ix.accounts[i];
        let pubkey = base58_encode(a.pubkey.as_slice());
        out.push(AccountMetaSimple { pubkey, is_signer: a.is_signer });
        i = i + 1;
        assert(ix@.accounts.take(i as int) =~= ix@.accounts.take(i - 1).push(ix.accounts@[i - 1]@));
    }
    assert(ix@.accounts.take(i as int) =~= ix@.accounts);
    out
}

/// The key text of a key-pair response: the secret decodes to a key-pair and
/// the public key is its public half.
pub open spec fn generate_keypair_spec(r: KeypairResponse) -> bool {
    let kp = base58_decoded(r.secret@)->Some_0;
    &&& base58_decoded(r.secret@) is Some
    &&& is_keypair(kp)
    &&& r.secret@ == base58_encoded(kp)
    &&& r.pubkey@ == base58_encoded(kp.subrange(32, 64))
    &&& decoded_key(r.pubkey@) == Some(kp.subrange(32, 64))
    &&& !is_blank(r.secret@)
}

/// The text form of a key-pair: its public half and its whole 64-byte form,
/// both in base58.
pub fn keypair_response(kp: &[u8; 64]) -> (r: KeypairResponse)
    requires
        is_keypair(kp@),
    ensures
        r.secret@ == base58_encoded(kp@),
        r.pubkey@ == base58_encoded(kp@.subrange(32, 64)),
        base58_decoded(r.secret@) == Some(kp@),
        decoded_key(r.pubkey@) == Some(kp@.subrange(32, 64)),
        !is_blank(r.secret@),
{
    let public = crate::codec::bytes32_at(kp.as_slice(), 32);
    let pubkey = base58_encode(public.as_slice());
    let secret = base58_encode(kp.as_slice());
    assert(!is_blank(secret@)) by {
        assert(crate::codec::is_base58_char(secret@[0]));
    }
    KeypairResponse { pubkey, secret }
}

/// Generates a random key-pair: its public key, and its 64-byte secret form,
/// both in base58.
pub fn generate_keypair() -> (r: KeypairResponse)
    ensures
        generate_keypair_spec(r),
{
    let kp = keypair_new();
    keypair_response(&kp)
}

pub open spec fn create_token_spec(
    req: CreateTokenRequest,
    r: Result<TokenInstructionResponse, ApiError>,
) -> bool {
    match (decoded_key(req.mint@), decoded_key(req.mint_authority@)) {
        (None, _) => is_bad_request(r, "Invalid mint pubkey"@),
        (Some(_), None) => is_bad_request(r, "Invalid mintAuthority pubkey"@),
        (Some(mint), Some(authority)) => r is Ok && describes_token_instruction(
            r->Ok_0,
            initialize_mint_model(mint, authority, req.decimals),
        ),
    }
}

/// Builds the instruction that initializes a mint with the given authority
/// and decimals.
pub fn create_token(req: &CreateTokenRequest) -> (r: Result<TokenInstructionResponse, ApiError>)
    ensures
        create_token_spec(*req, r),
{
    let mint = match decode_base58_key(req.mint.as_str()) {
        Some(k) => k,
        None => return Err(bad_request("Invalid mint pubkey")),
    };
    let authority = match decode_base58_key(req.mint_authority.as_str()) {
        Some(k) => k,
        None => return Err(bad_request("Invalid mintAuthority pubkey")),
    };
    let ix = match initialize_mint(&mint, &authority, req.decimals) {
        Ok(ix) => ix,
        Err(e) => return Err(e),
    };
    let accounts = account_responses(&ix);
    Ok(TokenInstructionResponse {
        program_id: base58_encode(ix.program_id.as_slice()),
        accounts,
        instruction_data: base64_encode(ix.data.as_slice()),
    })
}

pub open spec fn mint_token_spec(
    req: MintTokenRequest,
    r: Result<MintInstructionResponse, ApiError>,
) -> bool {
    match (decoded_key(req.mint@), decoded_key(req.destination@), decoded_key(req.authority@)) {
        (None, _, _) => is_bad_request(r, "Invalid mint pubkey"@),
        (Some(_), None, _) => is_bad_request(r, "Invalid destination pubkey"@),
        (Some(_), Some(_), None) => is_bad_request(r, "Invalid authority pubkey"@),
        (Some(mint), Some(destination), Some(authority)) => r is Ok && describes_mint_instruction(
            r->Ok_0,
            mint_to_model(mint, destination, authority, req.amount),
        ),
    }
}

/// Builds the instruction that mints `amount` tokens to the destination; a
/// zero amount is accepted.
pub fn mint_token(req: &MintTokenRequest) -> (r: Result<MintInstructionResponse, ApiError>)
    ensures
        mint_token_spec(*req, r),
{
    let mint = match decode_base58_key(req.mint.as_str()) {
        Some(k) => k,
        None => return Err(bad_request("Invalid mint pubkey")),
    };
    let destination = match decode_base58_key(req.destination.as_str()) {
        Some(k) => k,
        None => return Err(bad_request("Invalid destination pubkey")),
    };
    let authority = match decode_base58_key(req.authority.as_str()) {
        Some(k) => k,
        None => return Err(bad_request("Invalid authority pubkey")),
    };
    let ix = match mint_to(&mint, &destination, &authority, req.amount) {
        Ok(ix) => ix,
        Err(e) => return Err(e),
    };
    let accounts = account_responses(&ix);
    Ok(MintInstructionResponse {
        program_id: base58_encode(ix.program_id.as_slice()),
        accounts,
        instruction_data: base64_encode(ix.data.as_slice()),
    })
}

pub open spec fn sign_message_spec(
    req: SignMessageRequest,
    r: Result<SignMessageResponse, ApiError>,
) -> bool {
    let kp = base58_decoded(req.secret@)->Some_0;
    let message = encode_utf8(req.message@);
    let signature = ed25519_signature(kp.subrange(0, 32), message);
    if is_blank(req.message@) || is_blank(req.secret@) {
        is_bad_request(r, "Missing required fields"@)
    } else if base58_decoded(req.secret@) is None || !is_keypair(kp) {
        is_bad_request(r, "Invalid secret key format"@)
    } else {
        &&& r is Ok
        &&& r->Ok_0.signature@ == base64_encoded(signature)
        &&& base64_decoded(r->Ok_0.signature@) == Some(signature)
        &&& !is_blank(r->Ok_0.signature@)
        &&& r->Ok_0.public_key@ == base58_encoded(kp.subrange(32, 64))
        &&& decoded_key(r->Ok_0.public_key@) == Some(kp.subrange(32, 64))
        &&& !is_blank(r->Ok_0.public_key@)
        &&& signature.len() == 64
        &&& ed25519_verifies(kp.subrange(32, 64), message, signature)
        &&& r->Ok_0.message@ == req.message@
    }
}

/// Signs the UTF-8 bytes of the message with the key-pair given in its
/// base58 secret form.
pub fn sign_message(req: &SignMessageRequest) -> (r: Result<SignMessageResponse, ApiError>)
    ensures
        sign_message_spec(*req, r),
{
    if blank(req.message.as_str()) || blank(req.secret.as_str()) {
        return Err(bad_request("Missing required fields"));
    }
    let bytes = match base58_decode(req.secret.as_str()) {
        Some(b) => b,
        None => return Err(bad_request("Invalid secret key format")),
    };
    if !keypair_accepts(bytes.as_slice()) {
        return Err(bad_request("Invalid secret key format"));
    }
    let kp = to_array64(&bytes);
    let signature = sign_bytes(&kp, req.message.as_str().as_bytes());
    let public = crate::codec::bytes32_at(kp.as_slice(), 32);
    let signature_text = base64_encode(signature.as_slice());
    let public_text = base58_encode(public.as_slice());
    assert(!is_blank(signature_text@)) by {
        assert(crate::codec::is_base64_char(signature_text@[0]));
    }
    assert(!is_blank(public_text@)) by {
        assert(crate::codec::is_base58_char(public_text@[0]));
    }
    Ok(SignMessageResponse {
        signature: signature_text,
        public_key: public_text,
        message: req.message.clone(),
    })
}

pub open spec fn verify_message_spec(
    req: VerifyMessageRequest,
    r: Result<VerifyMessageResponse, ApiError>,
) -> bool {
    let signature = base64_decoded(req.signature@)->Some_0;
    if is_blank(req.message@) || is_blank(req.signature@) || is_blank(req.pubkey@) {
        is_bad_request(r, "Missing required fields"@)
    } else if decoded_key(req.pubkey@) is None {
        is_bad_request(r, "Invalid public key"@)
    } else if base64_decoded(req.signature@) is None {
        is_bad_request(r, "Invalid base64 signature"@)
    } else if signature.len() != 64 {
        is_bad_request(r, "Invalid signature format"@)
    } else {
        &&& r is Ok
        &&& r->Ok_0.valid == ed25519_verifies(
            decoded_key(req.pubkey@)->Some_0,
            encode_utf8(req.message@),
            signature,
        )
        &&& r->Ok_0.message@ == req.message@
        &&& r->Ok_0.pubkey@ == req.pubkey@
    }
}

/// Checks a base64 signature over the UTF-8 bytes of the message under a
/// base58 public key. Malformed input is an error; a well-formed signature
/// that does not verify is a success with `valid` false.
pub fn verify_message(req: &VerifyMessageRequest) -> (r: Result<VerifyMessageResponse, ApiError>)
    ensures
        verify_message_spec(*req, r),
{
    if blank(req.message.as_str()) || blank(req.signature.as_str()) || blank(req.pubkey.as_str()) {
        return Err(bad_request("Missing required fields"));
    }
    let pubkey = match decode_base58_key(req.pubkey.as_str()) {
        Some(k) => k,
        None => return Err(bad_request("Invalid public key")),
    };
    let bytes = match decode_base64(req.signature.as_str()) {
        Some(b) => b,
        None => return Err(bad_request("Invalid base64 signature")),
    };
    if bytes.len() != 64 {
        return Err(bad_request("Invalid signature format"));
    }
    let signature = to_array64(&bytes);
    let valid = signature_verifies(&signature, &pubkey, req.message.as_str().as_bytes());
    Ok(VerifyMessageResponse { valid, message: req.message.clone(), pubkey: req.pubkey.clone() })
}

pub open spec fn send_sol_spec(req: SendSolRequest, r: Result<SendSolResponse, ApiError>) -> bool {
    if req.lamports == 0 {
        is_bad_request(r, "lamports must be greater than 0"@)
    } else {
        match (decoded_key(req.from@), decoded_key(req.to@)) {
            (None, _) => is_bad_request(r, "Invalid 'from' address"@),
            (Some(_), None) => is_bad_request(r, "Invalid 'to' address"@),
            (Some(from), Some(to)) => r is Ok && describes_send_sol(
                r->Ok_0,
                native_transfer_model(from, to, req.lamports),
            ),
        }
    }
}

/// Builds a native-currency transfer of a positive number of lamports.
pub fn send_sol(req: &SendSolRequest) -> (r: Result<SendSolResponse, ApiError>)
    ensures
        send_sol_spec(*req, r),
{
    if req.lamports == 0 {
        return Err(bad_request("lamports must be greater than 0"));
    }
    let from = match decode_base58_key(req.from.as_str()) {
        Some(k) => k,
        None => return Err(bad_request("Invalid 'from' address")),
    };
    let to = match decode_base58_key(req.to.as_str()) {
        Some(k) => k,
        None => return Err(bad_request("Invalid 'to' address")),
    };
    let ix = native_transfer(&from, &to, req.lamports);
    let accounts = account_keys(&ix);
    Ok(SendSolResponse {
        program_id: base58_encode(ix.program_id.as_slice()),
        accounts,
        instruction_data: base64_encode(ix.data.as_slice()),
    })
}

pub open spec fn send_token_spec(
    req: SendTokenRequest,
    r: Result<SendTokenResponse, ApiError>,
) -> bool {
    if req.amount == 0 {
        is_bad_request(r, "amount must be greater than 0"@)
    } else {
        match (decoded_key(req.owner@), decoded_key(req.destination@), decoded_key(req.mint@)) {
            (None, _, _) => is_bad_request(r, "Invalid owner pubkey"@),
            (Some(_), None, _) => is_bad_request(r, "Invalid destination pubkey"@),
            (Some(_), Some(_), None) => is_bad_request(r, "Invalid mint pubkey"@),
            (Some(owner), Some(destination), Some(mint)) => r is Ok && describes_send_token(
                r->Ok_0,
                token_transfer_model(
                    associated_token_address(owner, mint),
                    associated_token_address(destination, mint),
                    owner,
                    req.amount,
                ),
            ),
        }
    }
}

/// Builds a transfer of a positive amount of tokens from the owner's
/// associated token account to the destination's, for the mint.
pub fn send_token(req: &SendTokenRequest) -> (r: Result<SendTokenResponse, ApiError>)
    ensures
        send_token_spec(*req, r),
{
    if req.amount == 0 {
        return Err(bad_request("amount must be greater than 0"));
    }
    let owner = match decode_base58_key(req.owner.as_str()) {
        Some(k) => k,
        None => return Err(bad_request("Invalid owner pubkey")),
    };
    let destination = match decode_base58_key(req.destination.as_str()) {
        Some(k) => k,
        None => return Err(bad_request("Invalid destination pubkey")),
    };
    let mint = match decode_base58_key(req.mint.as_str()) {
        Some(k) => k,
        None => return Err(bad_request("Invalid mint pubkey")),
    };
    let ix = match token_transfer(&owner, &destination, &mint, req.amount) {
        Ok(ix) => ix,
        Err(e) => return Err(e),
    };
    let accounts = account_signers(&ix);
    Ok(SendTokenResponse {
        program_id: base58_encode(ix.program_id.as_slice()),
        accounts,
        instruction_data: base64_encode(ix.data.as_slice()),
    })
}

pub fn hello() -> (r: &'static str)
    ensures
        r@ == "Hello, world!"@,
{
    "Hello, world!"
}

} // verus!
