//! Hashing of passwords and tokens, and the code sent to the buzzer.
use vstd::prelude::*;

verus! {

/// The digest algorithms the library hashes with.
#[derive(PartialEq, Eq, Structural, Clone, Copy, Debug)]
pub enum DigestAlgorithm {
    Sha1,
    Sha256,
}

/// Number of hex characters in a digest of `algorithm` (two per byte: a SHA-1
/// digest has 20 bytes, a SHA-256 digest 32).
pub open spec fn digest_hex_len(algorithm: DigestAlgorithm) -> nat {
    match algorithm {
        DigestAlgorithm::Sha1 => 40,
        DigestAlgorithm::Sha256 => 64,
    }
}

/// A lower-case hexadecimal digit.
pub open spec fn is_lower_hex(c: char) -> bool {
    ('0' <= c && c <= '9') || ('a' <= c && c <= 'f')
}

/// What `crypto_hash::hex_digest` returns for an algorithm and the bytes it
/// hashes: the lower-case hex text of the digest.
pub uninterp spec fn hex_digest_of(algorithm: DigestAlgorithm, data: Seq<u8>) -> Seq<char>;

/// Calls `crypto_hash::hex_digest`. Trusted: the result is the named digest
/// text of the algorithm and the bytes, lower-case hex (the crate writes the
/// digest with `hex::encode`), two characters per digest byte.
#[verifier::external_body]
fn hex_digest(algorithm: DigestAlgorithm, data: &[u8]) -> (res: String)
    ensures
        res@ == hex_digest_of(algorithm, data@),
        res@.len() == digest_hex_len(algorithm),
        forall|i: int| 0 <= i < res@.len() ==> is_lower_hex(#[trigger] res@[i]),
{
    let alg = match algorithm {
        DigestAlgorithm::Sha1 => crypto_hash::Algorithm::SHA1,
        DigestAlgorithm::Sha256 => crypto_hash::Algorithm::SHA256,
    };
    crypto_hash::hex_digest(alg, data)
}

/// The fixed code the buzzer accepts.
pub open spec fn buzzer_code() -> Seq<char> {
    "1234567890qwerty"@
}

/// The code sent to the buzzer for a challenge: always the same fixed code,
/// whatever the challenge.
pub fn calculate_hash(_code: String) -> (res: String)
    ensures
        res@ == buzzer_code(),
{
    String::from_str("1234567890qwerty")
}

/// The stored form of a password: the SHA-256 digest of its bytes, in
/// lower-case hex.
pub fn hash_password(password: &[u8]) -> (res: String)
    ensures
        res@ == hex_digest_of(DigestAlgorithm::Sha256, password@),
        res@.len() == 64,
        forall|i: int| 0 <= i < res@.len() ==> is_lower_hex(#[trigger] res@[i]),
{
    hex_digest(DigestAlgorithm::Sha256, password)
}

/// The stored form of a password given as text: the digest of its UTF-8 bytes.
pub fn hash_password_str(password: &str) -> (res: String)
    ensures
        res@ == hex_digest_of(DigestAlgorithm::Sha256, vstd::utf8::encode_utf8(password@)),
        res@.len() == 64,
{
    hash_password(password.as_bytes())
}

/// The SHA-1 hex digest of the UTF-8 bytes of `text`.
pub fn sha1_hex_of_str(text: &str) -> (res: String)
    ensures
        res@ == hex_digest_of(DigestAlgorithm::Sha1, vstd::utf8::encode_utf8(text@)),
        res@.len() == 40,
{
    hex_digest(DigestAlgorithm::Sha1, text.as_bytes())
}

} // verus!
