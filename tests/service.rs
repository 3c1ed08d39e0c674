use sol_api::codec::{decode_base58_key, decode_base64, encode_base64};
use sol_api::error::ApiError;
use sol_api::handler::{
    create_token, generate_keypair, hello, mint_token, send_sol, send_token, sign_message,
    verify_message,
};
use sol_api::identity::blank;
use sol_api::response::{
    CreateTokenRequest, MintTokenRequest, SendSolRequest, SendTokenRequest, SignMessageRequest,
    VerifyMessageRequest,
};

const TOKEN_PROGRAM: &str = "TokenkegQfeZyiNwAJbNbGKPFXCWuBvf9Ss623VQ5DA";
const RENT_SYSVAR: &str = "SysvarRent111111111111111111111111111111111";

fn base58_encode(b: &[u8]) -> String {
    bs58::encode(b).into_string()
}

fn key(byte: u8) -> String {
    base58_encode(&[byte; 32])
}

fn bad_request_message<T>(r: Result<T, ApiError>) -> String {
    match r {
        Err(ApiError::BadRequest(m)) => m,
        Err(ApiError::InternalError(m)) => panic!("internal error: {}", m),
        Ok(_) => panic!("expected a bad request"),
    }
}

fn sign(message: &str, secret: &str) -> Result<sol_api::response::SignMessageResponse, ApiError> {
    sign_message(&SignMessageRequest { message: message.to_string(), secret: secret.to_string() })
}

fn verify(message: &str, signature: &str, pubkey: &str) -> Result<sol_api::response::VerifyMessageResponse, ApiError> {
    verify_message(&VerifyMessageRequest {
        message: message.to_string(),
        signature: signature.to_string(),
        pubkey: pubkey.to_string(),
    })
}

#[test]
fn hello_greets() {
    assert_eq!(hello(), "Hello, world!");
}

#[test]
fn key_round_trips_through_base58() {
    let bytes: Vec<u8> = (0u8..32).collect();
    let text = base58_encode(&bytes);
    assert_eq!(decode_base58_key(&text).unwrap().to_vec(), bytes);
    assert_eq!(decode_base58_key(TOKEN_PROGRAM).unwrap()[0], 6);
}

#[test]
fn key_of_wrong_length_is_refused() {
    assert!(decode_base58_key("1111").is_none());
    assert!(decode_base58_key("").is_none());
    assert!(decode_base58_key(&base58_encode(&[7u8; 33])).is_none());
    assert!(decode_base58_key(&base58_encode(&[7u8; 31])).is_none());
    assert!(decode_base58_key("not-base58!").is_none());
    assert!(decode_base58_key("0OIl0OIl0OIl0OIl0OIl0OIl0OIl0OIl").is_none());
}

#[test]
fn base64_encodes_and_decodes() {
    assert_eq!(encode_base64(&[1, 2, 3]), "AQID");
    assert_eq!(encode_base64(&[]), "");
    assert_eq!(decode_base64("AQID").unwrap(), vec![1, 2, 3]);
    assert!(decode_base64("!!!").is_none());
}

#[test]
fn blank_text() {
    assert!(blank(""));
    assert!(blank(" \t\n"));
    assert!(!blank(" a "));
}

#[test]
fn keypair_response_encodes_both_halves() {
    let kp = bs58::decode(&generate_keypair().secret).into_vec().unwrap();
    let mut bytes = [0u8; 64];
    bytes.copy_from_slice(&kp);
    let r = sol_api::handler::keypair_response(&bytes);
    assert_eq!(r.secret, base58_encode(&bytes));
    assert_eq!(r.pubkey, base58_encode(&bytes[32..]));
}

#[test]
fn generated_keypairs_differ() {
    let a = generate_keypair();
    let b = generate_keypair();
    assert_ne!(a.pubkey, b.pubkey);
    assert_ne!(a.secret, b.secret);
}

#[test]
fn generated_pubkey_is_public_half_of_secret() {
    let kp = generate_keypair();
    let secret = bs58::decode(&kp.secret).into_vec().unwrap();
    assert_eq!(secret.len(), 64);
    assert_eq!(bs58::decode(&kp.pubkey).into_vec().unwrap(), secret[32..].to_vec());
}

#[test]
fn signed_message_verifies() {
    let kp = generate_keypair();
    let signed = sign("hello ledger", &kp.secret).unwrap();
    assert_eq!(signed.public_key, kp.pubkey);
    assert_eq!(signed.message, "hello ledger");
    let checked = verify("hello ledger", &signed.signature, &signed.public_key).unwrap();
    assert!(checked.valid);
    assert_eq!(checked.message, "hello ledger");
    assert_eq!(checked.pubkey, kp.pubkey);
}

#[test]
fn signature_over_other_message_is_not_valid() {
    let kp = generate_keypair();
    let signed = sign("first", &kp.secret).unwrap();
    let checked = verify("second", &signed.signature, &kp.pubkey).unwrap();
    assert!(!checked.valid);
}

#[test]
fn signature_under_other_key_is_not_valid() {
    let kp = generate_keypair();
    let other = generate_keypair();
    let signed = sign("msg", &kp.secret).unwrap();
    let checked = verify("msg", &signed.signature, &other.pubkey).unwrap();
    assert!(!checked.valid);
}

#[test]
fn signature_is_deterministic() {
    let kp = generate_keypair();
    let a = sign("same", &kp.secret).unwrap();
    let b = sign("same", &kp.secret).unwrap();
    assert_eq!(a.signature, b.signature);
    assert_eq!(base64::Engine::decode(&base64::engine::general_purpose::STANDARD, &a.signature).unwrap().len(), 64);
}

#[test]
fn sign_empty_message_is_refused() {
    let kp = generate_keypair();
    assert_eq!(bad_request_message(sign("", &kp.secret)), "Missing required fields");
    assert_eq!(bad_request_message(sign("   ", &kp.secret)), "Missing required fields");
    assert_eq!(bad_request_message(sign("m", " ")), "Missing required fields");
}

#[test]
fn sign_with_bad_secret_is_refused() {
    assert_eq!(bad_request_message(sign("m", "not-base58!")), "Invalid secret key format");
    assert_eq!(bad_request_message(sign("hi", "0OIl")), "Invalid secret key format");
    assert_eq!(bad_request_message(sign("m", &key(3))), "Invalid secret key format");
    assert_eq!(bad_request_message(sign("m", &base58_encode(&[5u8; 64]))), "Invalid secret key format");
}

#[test]
fn verify_rejects_malformed_input() {
    let kp = generate_keypair();
    let signed = sign("m", &kp.secret).unwrap();
    assert_eq!(bad_request_message(verify("", &signed.signature, &kp.pubkey)), "Missing required fields");
    assert_eq!(bad_request_message(verify("m", &signed.signature, "abc")), "Invalid public key");
    assert_eq!(bad_request_message(verify("m", "%%%", &kp.pubkey)), "Invalid base64 signature");
    assert_eq!(bad_request_message(verify("m", "AQID", &kp.pubkey)), "Invalid signature format");
}

#[test]
fn create_token_builds_initialize_mint() {
    let resp = create_token(&CreateTokenRequest { mint: key(1), mint_authority: key(2), decimals: 9 }).unwrap();
    assert_eq!(resp.program_id, TOKEN_PROGRAM);
    assert_eq!(resp.accounts.len(), 2);
    assert_eq!(resp.accounts[0].pubkey, key(1));
    assert!(!resp.accounts[0].is_signer && resp.accounts[0].is_writable);
    assert_eq!(resp.accounts[1].pubkey, RENT_SYSVAR);
    assert!(!resp.accounts[1].is_signer && !resp.accounts[1].is_writable);
    let mut expected = vec![0u8, 9];
    expected.extend_from_slice(&[2u8; 32]);
    expected.push(0);
    assert_eq!(decode_base64(&resp.instruction_data).unwrap(), expected);
}

#[test]
fn create_token_with_bad_mint_is_refused() {
    let r = create_token(&CreateTokenRequest { mint: "not-base58!".to_string(), mint_authority: key(2), decimals: 6 });
    assert_eq!(bad_request_message(r), "Invalid mint pubkey");
    let r = create_token(&CreateTokenRequest { mint: key(1), mint_authority: "xyz".to_string(), decimals: 6 });
    assert_eq!(bad_request_message(r), "Invalid mintAuthority pubkey");
}

#[test]
fn mint_token_builds_mint_to() {
    let req = MintTokenRequest { mint: key(1), destination: key(2), authority: key(3), amount: 258 };
    let resp = mint_token(&req).unwrap();
    assert_eq!(resp.program_id, TOKEN_PROGRAM);
    let keys: Vec<&str> = resp.accounts.iter().map(|a| a.pubkey.as_str()).collect();
    assert_eq!(keys, vec![key(1).as_str(), key(2).as_str(), key(3).as_str()]);
    let flags: Vec<(bool, bool)> = resp.accounts.iter().map(|a| (a.is_signer, a.is_writable)).collect();
    assert_eq!(flags, vec![(false, true), (false, true), (true, false)]);
    assert_eq!(decode_base64(&resp.instruction_data).unwrap(), vec![7, 2, 1, 0, 0, 0, 0, 0, 0]);
}

#[test]
fn mint_token_accepts_zero_amount() {
    let req = MintTokenRequest { mint: key(1), destination: key(2), authority: key(3), amount: 0 };
    let resp = mint_token(&req).unwrap();
    assert_eq!(decode_base64(&resp.instruction_data).unwrap(), vec![7, 0, 0, 0, 0, 0, 0, 0, 0]);
}

#[test]
fn mint_token_with_bad_keys_is_refused() {
    let r = mint_token(&MintTokenRequest { mint: "bad!".to_string(), destination: key(2), authority: key(3), amount: 1 });
    assert_eq!(bad_request_message(r), "Invalid mint pubkey");
    let r = mint_token(&MintTokenRequest { mint: key(1), destination: "bad!".to_string(), authority: key(3), amount: 1 });
    assert_eq!(bad_request_message(r), "Invalid destination pubkey");
    let r = mint_token(&MintTokenRequest { mint: key(1), destination: key(2), authority: "bad!".to_string(), amount: 1 });
    assert_eq!(bad_request_message(r), "Invalid authority pubkey");
}

#[test]
fn send_sol_builds_native_transfer() {
    let resp = send_sol(&SendSolRequest { from: key(1), to: key(2), lamports: 1000 }).unwrap();
    assert_eq!(resp.program_id, "11111111111111111111111111111111");
    assert_eq!(resp.accounts, vec![key(1), key(2)]);
    assert_eq!(resp.instruction_data, "AgAAAOgDAAAAAAAA");
    assert_eq!(decode_base64(&resp.instruction_data).unwrap(), vec![2, 0, 0, 0, 0xe8, 0x03, 0, 0, 0, 0, 0, 0]);
}

#[test]
fn send_sol_refuses_zero_and_bad_keys() {
    let r = send_sol(&SendSolRequest { from: "bad".to_string(), to: "bad".to_string(), lamports: 0 });
    assert_eq!(bad_request_message(r), "lamports must be greater than 0");
    let r = send_sol(&SendSolRequest { from: "bad!".to_string(), to: key(2), lamports: 5 });
    assert_eq!(bad_request_message(r), "Invalid 'from' address");
    let r = send_sol(&SendSolRequest { from: key(1), to: "bad!".to_string(), lamports: 5 });
    assert_eq!(bad_request_message(r), "Invalid 'to' address");
}

#[test]
fn send_token_builds_transfer_between_associated_accounts() {
    let req = SendTokenRequest { destination: key(2), mint: key(9), owner: key(1), amount: 5 };
    let resp = send_token(&req).unwrap();
    assert_eq!(resp.program_id, TOKEN_PROGRAM);
    assert_eq!(resp.accounts.len(), 3);
    let owner = solana_sdk::pubkey::Pubkey::new_from_array([1u8; 32]);
    let dest = solana_sdk::pubkey::Pubkey::new_from_array([2u8; 32]);
    let mint = solana_sdk::pubkey::Pubkey::new_from_array([9u8; 32]);
    let source = spl_associated_token_account::get_associated_token_address(&owner, &mint);
    let target = spl_associated_token_account::get_associated_token_address(&dest, &mint);
    assert_eq!(resp.accounts[0].pubkey, source.to_string());
    assert_eq!(resp.accounts[1].pubkey, target.to_string());
    assert_ne!(resp.accounts[0].pubkey, key(1));
    assert_eq!(resp.accounts[2].pubkey, key(1));
    let signers: Vec<bool> = resp.accounts.iter().map(|a| a.is_signer).collect();
    assert_eq!(signers, vec![false, false, true]);
    assert_eq!(decode_base64(&resp.instruction_data).unwrap(), vec![3, 5, 0, 0, 0, 0, 0, 0, 0]);
}

#[test]
fn send_token_refuses_zero_and_bad_keys() {
    let r = send_token(&SendTokenRequest { destination: key(2), mint: key(9), owner: key(1), amount: 0 });
    assert_eq!(bad_request_message(r), "amount must be greater than 0");
    let r = send_token(&SendTokenRequest { destination: key(2), mint: key(9), owner: "x!".to_string(), amount: 1 });
    assert_eq!(bad_request_message(r), "Invalid owner pubkey");
    let r = send_token(&SendTokenRequest { destination: "x!".to_string(), mint: key(9), owner: key(1), amount: 1 });
    assert_eq!(bad_request_message(r), "Invalid destination pubkey");
    let r = send_token(&SendTokenRequest { destination: key(2), mint: "x!".to_string(), owner: key(1), amount: 1 });
    assert_eq!(bad_request_message(r), "Invalid mint pubkey");
}

#[test]
fn error_messages_and_status() {
    let bad = ApiError::BadRequest("Invalid mint pubkey".to_string());
    assert_eq!(bad.message(), "Bad request: Invalid mint pubkey");
    assert_eq!(bad.status_code(), 400);
    let internal = ApiError::InternalError("boom".to_string());
    assert_eq!(internal.message(), "Internal server error: boom");
    assert_eq!(internal.status_code(), 500);
    let envelope = bad.error_response();
    assert!(!envelope.success);
    assert_eq!(envelope.error, "Bad request: Invalid mint pubkey");
}

#[test]
fn success_envelope() {
    let r = sol_api::response::SuccessResponse::new(5u8);
    assert!(r.success);
    assert_eq!(r.data, 5);
}
