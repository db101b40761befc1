//! The byte-level primitives of the token flow: random token material,
//! URL-safe base64, SHA-256 and lowercase hex, each behind a trusted
//! wrapper around the crate that computes it.

use vstd::prelude::*;
use vstd::string::*;

use base64::Engine;
use sha2::Digest;

verus! {

/// The SHA-256 digest of a byte sequence; the digest is a function of
/// the bytes alone.
pub uninterp spec fn sha256_of(bytes: Seq<u8>) -> Seq<u8>;

/// The URL-safe, unpadded base64 encoding of a byte sequence; the
/// encoding is a function of the bytes alone.
pub uninterp spec fn base64_url_of(bytes: Seq<u8>) -> Seq<char>;

/// The lowercase hex digit for one nibble.
pub open spec fn hex_digit(n: u8) -> char
    recommends
        n < 16,
{
    if n < 10 {
        ((n + 48) as char)
    } else {
        ((n + 87) as char)
    }
}

/// The lowercase hex encoding of a byte sequence: for each byte the
/// digit of its high nibble, then the digit of its low nibble.
pub open spec fn hex_of(bytes: Seq<u8>) -> Seq<char> {
    Seq::new(
        bytes.len() * 2,
        |i: int|
            if i % 2 == 0 {
                hex_digit(bytes[i / 2] / 16)
            } else {
                hex_digit(bytes[i / 2] % 16)
            },
    )
}

/// Relies on sha2's `Sha256::digest`: a pure function of the input
/// bytes with a 32-byte result.
#[verifier::external_body]
pub(crate) fn sha256_digest(bytes: &[u8]) -> (r: Vec<u8>)
    ensures
        r@ == sha256_of(bytes@),
        r@.len() == 32,
{
    sha2::Sha256::digest(bytes).as_slice().to_vec()
}

/// Relies on base64's `URL_SAFE_NO_PAD` engine `encode`: a pure function
/// of the input bytes.
#[verifier::external_body]
pub(crate) fn base64_url_encode(bytes: &[u8]) -> (r: String)
    ensures
        r@ == base64_url_of(bytes@),
{
    base64::engine::general_purpose::URL_SAFE_NO_PAD.encode(bytes)
}

/// Relies on hex's `encode`: two lowercase hex digits per input byte,
/// high nibble first.
#[verifier::external_body]
pub(crate) fn hex_encode(bytes: &[u8]) -> (r: String)
    ensures
        r@ == hex_of(bytes@),
{
    hex::encode(bytes)
}

/// Relies on rand's `fill` over the thread-local generator: the whole
/// 32-byte buffer is filled; nothing is assumed of the values drawn.
#[verifier::external_body]
pub(crate) fn random_token_bytes() -> (r: Vec<u8>)
    ensures
        r@.len() == 32,
{
    let mut bytes = [0u8; 32];
    rand::fill(&mut bytes[..]);
    bytes.to_vec()
}

/// The stored form of a token: the lowercase hex of the SHA-256 digest
/// of its UTF-8 bytes.
pub open spec fn spec_hash_token(token: Seq<char>) -> Seq<char> {
    hex_of(sha256_of(vstd::utf8::encode_utf8(token)))
}

/// Hashes a token for storage and comparison.
pub fn hash_token(token: &str) -> (r: String)
    ensures
        r@ == spec_hash_token(token@),
{
    let digest = sha256_digest(token.as_bytes());
    hex_encode(digest.as_slice())
}

} // verus!
