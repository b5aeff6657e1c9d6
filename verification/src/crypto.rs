//! Password hashing, session-token generation and token digests.

use vstd::prelude::*;
use vstd::string::*;
use vstd::utf8::encode_utf8;
use crate::text::push_char;
use sha2::Digest;
use rand::RngCore;
use argon2::password_hash::{PasswordHasher, PasswordVerifier};

verus! {

broadcast use vstd::string::group_string_axioms;

/// The SHA-256 digest of `data`.
pub uninterp spec fn sha256_digest(data: Seq<u8>) -> Seq<u8>;

/// Whether the Argon2 PHC string `hash` verifies `password` under the
/// default Argon2 context.
pub uninterp spec fn argon2_verifies(password: Seq<char>, hash: Seq<char>) -> bool;

/// Calls `sha2::Sha256::digest` on `data`. SHA-256 always yields 32 bytes
/// (the output type is a 32-byte array).
#[verifier::external_body]
pub(crate) fn sha256(data: &[u8]) -> (d: Vec<u8>)
    ensures
        d@ == sha256_digest(data@),
        d@.len() == 32,
{
    sha2::Sha256::digest(data).to_vec()
}

/// Fills `n` bytes from the operating system's random source
/// (`rand::rngs::OsRng::fill_bytes`). Nothing is promised of the bytes
/// beyond their number.
#[verifier::external_body]
pub(crate) fn random_bytes(n: usize) -> (b: Vec<u8>)
    ensures
        b@.len() == n,
{
    let mut buf = vec![0u8; n];
    rand::rngs::OsRng.fill_bytes(&mut buf);
    buf
}

/// Hashes `password` with Argon2 under its default parameters and a fresh
/// salt from the operating system (`SaltString::generate`,
/// `PasswordHasher::hash_password`), as a PHC string; `None` when hashing
/// fails. Verification recomputes the hash with the parameters and salt the
/// PHC string records, so a produced hash verifies its own password.
/// Hashing fails only on inputs it rejects: a generated salt is always of a
/// valid length and the default output length is in range, so only a
/// password over `u32::MAX` bytes (`Error::PwdTooLong`) is refused.
#[verifier::external_body]
pub(crate) fn argon2_hash(password: &str) -> (h: Option<String>)
    ensures
        h matches Some(s) ==> argon2_verifies(password@, s@),
        encode_utf8(password@).len() <= u32::MAX ==> h is Some,
{
    let salt = argon2::password_hash::SaltString::generate(&mut rand::rngs::OsRng);
    argon2::Argon2::default().hash_password(password.as_bytes(), &salt).ok().map(|h| h.to_string())
}

/// Parses `hash` as a PHC string (`PasswordHash::new`) and checks
/// `password` against it with the default Argon2 context
/// (`PasswordVerifier::verify_password`); a hash that does not parse
/// verifies nothing.
#[verifier::external_body]
pub(crate) fn argon2_verify(password: &str, hash: &str) -> (ok: bool)
    ensures
        ok == argon2_verifies(password@, hash@),
{
    let Ok(parsed) = argon2::password_hash::PasswordHash::new(hash) else {
        return false;
    };
    argon2::Argon2::default().verify_password(password.as_bytes(), &parsed).is_ok()
}

/// The lowercase hexadecimal digit of a value below 16.
pub open spec fn hex_digit(v: u8) -> char {
    if v < 10 {
        (48u8 + v) as char
    } else {
        (97u8 + (v - 10)) as char
    }
}

/// Two lowercase hexadecimal digits per byte, most significant first.
pub open spec fn hex_of(bytes: Seq<u8>) -> Seq<char>
    decreases bytes.len(),
{
    if bytes.len() == 0 {
        Seq::empty()
    } else {
        hex_of(bytes.drop_last()).push(hex_digit(bytes.last() / 16)).push(hex_digit(bytes.last() % 16))
    }
}

fn hex_digit_exec(v: u8) -> (c: char)
    requires
        v < 16,
    ensures
        c == hex_digit(v),
{
    if v < 10 {
        (48u8 + v) as char
    } else {
        (97u8 + (v - 10)) as char
    }
}

/// Lowercase hexadecimal text of `bytes`.
pub fn hex_encode(bytes: &Vec<u8>) -> (s: String)
    ensures
        s@ == hex_of(bytes@),
{
    let mut s = String::new();
    let mut i: usize = 0;
    while i < bytes.len()
        invariant
            i <= bytes.len(),
            s@ == hex_of(bytes@.take(i as int)),
        decreases bytes.len() - i,
    {
        let b = bytes[i];
        assert(bytes@.take(i + 1).drop_last() =~= bytes@.take(i as int));
        push_char(&mut s, hex_digit_exec(b / 16));
        push_char(&mut s, hex_digit_exec(b % 16));
        i += 1;
    }
    assert(bytes@.take(bytes.len() as int) =~= bytes@);
    s
}

/// The persisted form of a session token: the hex SHA-256 of its UTF-8
/// bytes, so a leaked table cannot be replayed as cookies.
pub open spec fn token_digest(token: Seq<char>) -> Seq<char> {
    hex_of(sha256_digest(vstd::utf8::encode_utf8(token)))
}

pub fn hash_token(token: &str) -> (digest: String)
    ensures
        digest@ == token_digest(token@),
{
    let bytes = token.as_bytes();
    let d = sha256(bytes);
    hex_encode(&d)
}

/// `n` fresh random bytes as lowercase hex.
pub fn random_hex(n: usize) -> (s: String)
    ensures
        exists|b: Seq<u8>| b.len() == n && s@ == hex_of(b),
{
    let b = random_bytes(n);
    hex_encode(&b)
}

/// Hex text has two digits per byte.
pub proof fn hex_length(bytes: Seq<u8>)
    ensures
        hex_of(bytes).len() == 2 * bytes.len(),
    decreases bytes.len(),
{
    if bytes.len() > 0 {
        hex_length(bytes.drop_last());
    }
}

} // verus!
