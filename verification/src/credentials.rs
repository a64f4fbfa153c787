//! Credential hashing: the lowercase hexadecimal SHA-256 digest of salt,
//! password and username, in that order.
//!
//! One salt is shared by all users. That is weaker than a salt per user: a
//! table precomputed for this salt serves against every account. It is kept so
//! that stored hashes stay comparable; the username in the hash input still
//! makes equal passwords of different users hash differently.
use sha2::{Digest, Sha256};
use vstd::prelude::*;
use vstd::string::*;
use vstd::utf8::*;

verus! {

/// The SHA-256 digest of a byte string.
pub uninterp spec fn sha256_digest(data: Seq<u8>) -> Seq<u8>;

/// The sixteen lowercase hexadecimal digits, by value.
pub open spec fn hex_digits() -> Seq<char> {
    "0123456789abcdef"@
}

/// The lowercase hexadecimal text of `bytes`: two digits for each byte, the
/// high half first.
pub open spec fn hex_encode_spec(bytes: Seq<u8>) -> Seq<char> {
    Seq::new(
        2 * bytes.len(),
        |i: int|
            if i % 2 == 0 {
                hex_digits()[bytes[i / 2] as int / 16]
            } else {
                hex_digits()[bytes[i / 2] as int % 16]
            },
    )
}

/// The stored form of a password: the hexadecimal SHA-256 digest of the UTF-8
/// bytes of `salt`, `password` and `username` joined in that order.
pub open spec fn hash_spec(salt: Seq<char>, password: Seq<char>, username: Seq<char>) -> Seq<
    char,
> {
    hex_encode_spec(sha256_digest(encode_utf8(salt + password + username)))
}

/// The salt that every password hash of the store is computed with.
pub open spec fn salt_spec() -> Seq<char> {
    "gearXchange"@
}

/// The salt that every password hash of the store is computed with.
pub fn salt() -> (s: &'static str)
    ensures
        s@ == salt_spec(),
{
    "gearXchange"
}

/// `sha2::Sha256::digest` on `data`. Trusted: the result is the SHA-256 digest
/// of `data`, a function of the bytes alone, and is 32 bytes long.
#[verifier::external_body]
fn sha256(data: &[u8]) -> (digest: Vec<u8>)
    ensures
        digest@ == sha256_digest(data@),
        digest@.len() == 32,
{
    Sha256::digest(data).to_vec()
}

/// The digit for a value below sixteen, as a one-character string.
fn hex_digit(value: u8) -> (digit: &'static str)
    requires
        value < 16,
    ensures
        digit@ == seq![hex_digits()[value as int]],
{
    let digits = "0123456789abcdef";
    proof {
        reveal_strlit("0123456789abcdef");
        assert(is_ascii_chars(digits@));
    }
    let digit = digits.substring_ascii(value as usize, value as usize + 1);
    assert(digit@ =~= seq![hex_digits()[value as int]]);
    digit
}

/// Writes `bytes` as lowercase hexadecimal text.
pub fn hex_encode(bytes: &[u8]) -> (text: String)
    ensures
        text@ == hex_encode_spec(bytes@),
{
    let mut text = String::new();
    let mut i: usize = 0;
    while i < bytes.len()
        invariant
            i <= bytes.len(),
            text@ == hex_encode_spec(bytes@.take(i as int)),
        decreases bytes.len() - i,
    {
        let byte = bytes[i];
        text.append(hex_digit(byte / 16));
        text.append(hex_digit(byte % 16));
        i += 1;
        assert(text@ =~= hex_encode_spec(bytes@.take(i as int)));
    }
    assert(bytes@.take(i as int) =~= bytes@);
    text
}

/// Hashes a password for storage or for comparison with a stored hash.
pub fn hash(salt: &str, password: &str, username: &str) -> (digest: String)
    ensures
        digest@ == hash_spec(salt@, password@, username@),
{
    let mut message = salt.to_owned();
    message.append(password);
    message.append(username);
    let digest = sha256(message.as_str().as_bytes());
    hex_encode(digest.as_slice())
}

} // verus!
