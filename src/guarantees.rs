//! Facts that relate several operations of the service.

use vstd::prelude::*;
use crate::codec::{base64_decoded, decoded_key};
use crate::error::ApiError;
use crate::handler::{
    generate_keypair_spec, is_bad_request, mint_token_spec, send_sol_spec, send_token_spec,
    sign_message_spec, verify_message_spec,
};
use crate::identity::{ed25519_verifies, is_blank};
use crate::response::{
    KeypairResponse, MintInstructionResponse, MintTokenRequest, SendSolRequest, SendSolResponse,
    SendTokenRequest, SendTokenResponse, SignMessageRequest, SignMessageResponse,
    VerifyMessageRequest, VerifyMessageResponse,
};
use vstd::utf8::encode_utf8;

verus! {

/// A non-blank message signed with the secret of a generated key-pair, then
/// checked with the returned signature and public key, is reported valid,
/// and as a success.
pub proof fn lemma_sign_then_verify(
    keypair: KeypairResponse,
    sign_req: SignMessageRequest,
    signed: Result<SignMessageResponse, ApiError>,
    verify_req: VerifyMessageRequest,
    verified: Result<VerifyMessageResponse, ApiError>,
)
    requires
        generate_keypair_spec(keypair),
        sign_req.secret@ == keypair.secret@,
        !is_blank(sign_req.message@),
        sign_message_spec(sign_req, signed),
        verify_req.message@ == sign_req.message@,
        verify_req.signature@ == signed->Ok_0.signature@,
        verify_req.pubkey@ == signed->Ok_0.public_key@,
        verify_message_spec(verify_req, verified),
    ensures
        verified is Ok,
        verified->Ok_0.valid,
{
}

/// A signature made over one message and checked against another non-blank
/// message is answered with a success, never an error; `valid` is then
/// whatever ed25519 verification of the other message gives.
pub proof fn lemma_verify_other_message_succeeds(
    keypair: KeypairResponse,
    sign_req: SignMessageRequest,
    signed: Result<SignMessageResponse, ApiError>,
    verify_req: VerifyMessageRequest,
    verified: Result<VerifyMessageResponse, ApiError>,
)
    requires
        generate_keypair_spec(keypair),
        sign_req.secret@ == keypair.secret@,
        !is_blank(sign_req.message@),
        sign_message_spec(sign_req, signed),
        !is_blank(verify_req.message@),
        verify_req.message@ != sign_req.message@,
        verify_req.signature@ == signed->Ok_0.signature@,
        verify_req.pubkey@ == signed->Ok_0.public_key@,
        verify_message_spec(verify_req, verified),
    ensures
        verified is Ok,
        verified->Ok_0.valid == ed25519_verifies(
            decoded_key(verify_req.pubkey@)->Some_0,
            encode_utf8(verify_req.message@),
            base64_decoded(verify_req.signature@)->Some_0,
        ),
{
}

/// Transfers of zero lamports or zero tokens are refused as bad requests
/// whatever their keys, while minting zero tokens with valid keys succeeds.
pub proof fn lemma_zero_amounts(
    sol_req: SendSolRequest,
    sol: Result<SendSolResponse, ApiError>,
    token_req: SendTokenRequest,
    token: Result<SendTokenResponse, ApiError>,
    mint_req: MintTokenRequest,
    mint: Result<MintInstructionResponse, ApiError>,
)
    requires
        sol_req.lamports == 0,
        send_sol_spec(sol_req, sol),
        token_req.amount == 0,
        send_token_spec(token_req, token),
        mint_req.amount == 0,
        decoded_key(mint_req.mint@) is Some,
        decoded_key(mint_req.destination@) is Some,
        decoded_key(mint_req.authority@) is Some,
        mint_token_spec(mint_req, mint),
    ensures
        is_bad_request(sol, "lamports must be greater than 0"@),
        is_bad_request(token, "amount must be greater than 0"@),
        mint is Ok,
{
}

} // verus!
