//! Base58 and base64 text forms of keys, signatures and byte buffers.

use vstd::prelude::*;
use base64::engine::Engine;

verus! {

/// What `bs58::decode(s).into_vec()` yields for the text `s`:
/// `None` when `s` holds a character outside the base58 alphabet.
pub uninterp spec fn base58_decoded(s: Seq<char>) -> Option<Seq<u8>>;

/// What `bs58::encode(b).into_string()` yields for the bytes `b`.
pub uninterp spec fn base58_encoded(b: Seq<u8>) -> Seq<char>;

/// What base64's standard engine decodes from the text `s`:
/// `None` when `s` is not canonical, padded standard base64.
pub uninterp spec fn base64_decoded(s: Seq<char>) -> Option<Seq<u8>>;

/// What base64's standard engine encodes from the bytes `b`.
pub uninterp spec fn base64_encoded(b: Seq<u8>) -> Seq<char>;

/// A public key or program address: the base58 decoding of `s`,
/// when that decoding succeeds and has exactly 32 bytes.
pub open spec fn decoded_key(s: Seq<char>) -> Option<Seq<u8>> {
    match base58_decoded(s) {
        Some(b) => if b.len() == 32 { Some(b) } else { None },
        None => None,
    }
}

/// A character of the base58 alphabet.
pub open spec fn is_base58_char(c: char) -> bool {
    ('1' <= c && c <= '9') || ('A' <= c && c <= 'Z' && c != 'I' && c != 'O')
        || ('a' <= c && c <= 'z' && c != 'l')
}

/// A character of standard base64 text, padding included.
pub open spec fn is_base64_char(c: char) -> bool {
    ('A' <= c && c <= 'Z') || ('a' <= c && c <= 'z') || ('0' <= c && c <= '9') || c == '+'
        || c == '/' || c == '='
}

/// Relies on `bs58::decode(..).into_vec()`: the decoded bytes, or an error
/// for a character outside the alphabet.
#[verifier::external_body]
pub(crate) fn base58_decode(s: &str) -> (r: Option<Vec<u8>>)
    ensures
        (exists|i: int| 0 <= i < s@.len() && !is_base58_char(#[trigger] s@[i])) ==> r is None,
        r.is_some() == base58_decoded(s@).is_some(),
        r.is_some() ==> r->Some_0@ == base58_decoded(s@)->Some_0,
{
    bs58::decode(s).into_vec().ok()
}

/// Relies on `bs58::encode(..).into_string()`: the base58 text of the bytes,
/// made of the alphabet's characters, empty only for no bytes, and which
/// decodes back to them.
#[verifier::external_body]
pub(crate) fn base58_encode(b: &[u8]) -> (r: String)
    ensures
        r@ == base58_encoded(b@),
        base58_decoded(r@) == Some(b@),
        forall|i: int| 0 <= i < r@.len() ==> is_base58_char(#[trigger] r@[i]),
        b@.len() > 0 ==> r@.len() > 0,
{
    bs58::encode(b).into_string()
}

/// Relies on base64's `STANDARD.decode`: the decoded bytes, or an error for
/// text that is not canonical, padded standard base64.
#[verifier::external_body]
fn base64_decode(s: &str) -> (r: Option<Vec<u8>>)
    ensures
        (exists|i: int| 0 <= i < s@.len() && !is_base64_char(#[trigger] s@[i])) ==> r is None,
        r.is_some() == base64_decoded(s@).is_some(),
        r.is_some() ==> r->Some_0@ == base64_decoded(s@)->Some_0,
{
    base64::engine::general_purpose::STANDARD.decode(s).ok()
}

/// Relies on base64's `STANDARD.encode`: padded standard base64 text of the
/// bytes, empty only for no bytes, and which decodes back to them.
#[verifier::external_body]
pub(crate) fn base64_encode(b: &[u8]) -> (r: String)
    ensures
        r@ == base64_encoded(b@),
        base64_decoded(r@) == Some(b@),
        forall|i: int| 0 <= i < r@.len() ==> is_base64_char(#[trigger] r@[i]),
        b@.len() > 0 ==> r@.len() > 0,
{
    base64::engine::general_purpose::STANDARD.encode(b)
}

/// Copies the 32 bytes of `v` that start at `start` into a fixed-size array.
pub fn bytes32_at(v: &[u8], start: usize) -> (r: [u8; 32])
    requires
        start + 32 <= v@.len(),
    ensures
        r@ == v@.subrange(start as int, start + 32),
{
    let n: usize = v.len();
    let mut out = [0u8; 32];
    let mut i: usize = 0;
    while i < 32
        invariant
            n == v@.len(),
            start + 32 <= v@.len(),
            i <= 32,
            out@.len() == 32,
            forall|j: int| 0 <= j < i ==> out@[j] == v@[start + j],
        decreases 32 - i,
    {
        out[i] = v[start + i];
        i = i + 1;
    }
    assert(out@ =~= v@.subrange(start as int, start + 32));
    out
}

/// Copies a 64-byte vector into a fixed-size array.
pub fn to_array64(v: &Vec<u8>) -> (r: [u8; 64])
    requires
        v@.len() == 64,
    ensures
        r@ == v@,
{
    let mut out = [0u8; 64];
    let mut i: usize = 0;
    while i < 64
        invariant
            v@.len() == 64,
            i <= 64,
            out@.len() == 64,
            forall|j: int| 0 <= j < i ==> out@[j] == v@[j],
        decreases 64 - i,
    {
        out[i] = v[i];
        i = i + 1;
    }
    assert(out@ =~= v@);
    out
}

/// Decodes a base58 public key: `None` for text outside the alphabet or a
/// decoding whose length is not 32 bytes.
pub fn decode_base58_key(s: &str) -> (r: Option<[u8; 32]>)
    ensures
        (exists|i: int| 0 <= i < s@.len() && !is_base58_char(#[trigger] s@[i])) ==> r is None,
        r.is_some() == decoded_key(s@).is_some(),
        r.is_some() ==> r->Some_0@ == decoded_key(s@)->Some_0,
{
    match base58_decode(s) {
        Some(v) => {
            if v.len() == 32 {
                Some(bytes32_at(v.as_slice(), 0))
            } else {
                None
            }
        },
        None => None,
    }
}

/// Decodes base64 text into bytes: `None` when the text is not canonical,
/// padded standard base64.
pub fn decode_base64(s: &str) -> (r: Option<Vec<u8>>)
    ensures
        (exists|i: int| 0 <= i < s@.len() && !is_base64_char(#[trigger] s@[i])) ==> r is None,
        r.is_some() == base64_decoded(s@).is_some(),
        r.is_some() ==> r->Some_0@ == base64_decoded(s@)->Some_0,
{
    base64_decode(s)
}

/// Encodes bytes as padded standard base64 text.
pub fn encode_base64(b: &[u8]) -> (r: String)
    ensures
        r@ == base64_encoded(b@),
        base64_decoded(r@) == Some(b@),
{
    base64_encode(b)
}

/// Every text whose base58 decoding has exactly 32 bytes decodes, as a key,
/// to those same bytes.
pub proof fn lemma_key_decodes_to_its_bytes(s: Seq<char>, bytes: Seq<u8>)
    requires
        base58_decoded(s) == Some(bytes),
        bytes.len() == 32,
    ensures
        decoded_key(s) == Some(bytes),
{
}

/// Every text that is not base58, or whose base58 decoding does not have
/// exactly 32 bytes, is refused as a key.
pub proof fn lemma_wrong_length_refused(s: Seq<char>)
    requires
        base58_decoded(s) is None || base58_decoded(s)->Some_0.len() != 32,
    ensures
        decoded_key(s) is None,
{
}

} // verus!
