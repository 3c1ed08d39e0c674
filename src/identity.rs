//! Ed25519 key-pairs, signatures and the blank-text test on inputs.

use vstd::prelude::*;
use solana_sdk::signature::{Keypair, Signature};
use solana_sdk::signer::Signer;

verus! {

/// The public key that ed25519 derives from the 32-byte secret key `secret`
/// (`ed25519_dalek::PublicKey::from(&SecretKey)`).
pub uninterp spec fn ed25519_public(secret: Seq<u8>) -> Seq<u8>;

/// The ed25519 signature that the secret key `secret` makes over `message`.
pub uninterp spec fn ed25519_signature(secret: Seq<u8>, message: Seq<u8>) -> Seq<u8>;

/// Whether `signature` verifies over `message` under the public key `pubkey`.
pub uninterp spec fn ed25519_verifies(pubkey: Seq<u8>, message: Seq<u8>, signature: Seq<u8>) -> bool;

/// A key-pair in its 64-byte form: the secret key, then the public key that
/// it derives.
pub open spec fn is_keypair(b: Seq<u8>) -> bool {
    b.len() == 64 && b.subrange(32, 64) == ed25519_public(b.subrange(0, 32))
}

/// The characters of Unicode's `White_Space` property.
pub open spec fn is_whitespace(c: char) -> bool {
    ('\u{9}' <= c && c <= '\u{d}') || c == ' ' || c == '\u{85}' || c == '\u{a0}'
        || c == '\u{1680}' || ('\u{2000}' <= c && c <= '\u{200a}') || c == '\u{2028}'
        || c == '\u{2029}' || c == '\u{202f}' || c == '\u{205f}' || c == '\u{3000}'
}

/// Text that is empty or holds only whitespace.
pub open spec fn is_blank(s: Seq<char>) -> bool {
    forall|i: int| 0 <= i < s.len() ==> is_whitespace(s[i])
}

/// Relies on `str::trim`: what remains once leading and trailing
/// whitespace is removed, which is empty exactly when all of it was whitespace.
#[verifier::external_body]
fn trim(s: &str) -> (r: &str)
    ensures
        r@.len() == 0 <==> is_blank(s@),
{
    s.trim()
}

/// Whether the text is empty or holds only whitespace.
pub fn blank(s: &str) -> (r: bool)
    ensures
        r == is_blank(s@),
{
    trim(s).is_empty()
}

/// Relies on `Keypair::new()` and `Keypair::to_bytes`: a fresh random key-pair
/// in its 64-byte form.
#[verifier::external_body]
pub(crate) fn keypair_new() -> (r: [u8; 64])
    ensures
        is_keypair(r@),
{
    Keypair::new().to_bytes()
}

/// Relies on `Keypair::try_from(&[u8])`, which `Keypair::from_bytes` calls:
/// it accepts exactly the 64-byte forms whose public half is derived from
/// their secret half.
#[verifier::external_body]
pub(crate) fn keypair_accepts(b: &[u8]) -> (r: bool)
    ensures
        r == is_keypair(b@),
{
    Keypair::try_from(b).is_ok()
}

/// Relies on `Keypair::new_from_array` and `Signer::sign_message`: the
/// deterministic ed25519 signature of the message, which `Signature::verify`
/// accepts under the public key derived from the secret (ed25519's
/// correctness; the strict check refuses a signature only when its nonce
/// hashes to zero, which no one can bring about).
#[verifier::external_body]
fn sign_with_secret(secret: &[u8; 32], message: &[u8]) -> (r: [u8; 64])
    ensures
        r@ == ed25519_signature(secret@, message@),
        ed25519_verifies(ed25519_public(secret@), message@, r@),
{
    Keypair::new_from_array(*secret).sign_message(message).into()
}

/// Relies on `Signature::verify`: whether the signature verifies over the
/// message under the public key.
#[verifier::external_body]
pub(crate) fn signature_verifies(
    signature: &[u8; 64],
    pubkey: &[u8; 32],
    message: &[u8],
) -> (r: bool)
    ensures
        r == ed25519_verifies(pubkey@, message@, signature@),
{
    Signature::from(*signature).verify(pubkey, message)
}

/// Signs the message's bytes with the key-pair's secret half.
pub fn sign_bytes(keypair: &[u8; 64], message: &[u8]) -> (r: [u8; 64])
    requires
        is_keypair(keypair@),
    ensures
        r@ == ed25519_signature(keypair@.subrange(0, 32), message@),
        ed25519_verifies(keypair@.subrange(32, 64), message@, r@),
{
    let secret = crate::codec::bytes32_at(keypair.as_slice(), 0);
    sign_with_secret(&secret, message)
}

} // verus!
