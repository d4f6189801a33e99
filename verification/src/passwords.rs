//! Argon2 password hashing, as the `argon2` crate computes it.

use vstd::prelude::*;
use argon2::password_hash::rand_core::OsRng;
use argon2::password_hash::{PasswordHash, PasswordHasher, PasswordVerifier, Salt, SaltString};
use argon2::Argon2;
use crate::error::ApiError;

verus! {

/// What hashing `password` with Argon2 (default parameters) and the B64
/// salt `salt` gives: the PHC string of the hash, or the text of the error.
pub uninterp spec fn argon2_hash_outcome(password: Seq<u8>, salt: Seq<char>) -> Result<
    Seq<char>,
    Seq<char>,
>;

/// What checking `password` against the PHC string `hash` gives: whether
/// it matches, or the text of the error when `hash` is not a PHC string.
pub uninterp spec fn argon2_verify_outcome(password: Seq<u8>, hash: Seq<char>) -> Result<
    bool,
    Seq<char>,
>;

/// A textual result as plain values.
pub open spec fn text_result_view(r: Result<String, String>) -> Result<Seq<char>, Seq<char>> {
    match r {
        Ok(s) => Ok(s@),
        Err(e) => Err(e@),
    }
}

/// A yes/no result with a textual error as plain values.
pub open spec fn check_result_view(r: Result<bool, String>) -> Result<bool, Seq<char>> {
    match r {
        Ok(b) => Ok(b),
        Err(e) => Err(e@),
    }
}

/// Whether `password` checks out against the PHC string `hash`: the string
/// parses and the password matches it.
pub open spec fn checks_out(password: Seq<u8>, hash: Seq<char>) -> bool {
    argon2_verify_outcome(password, hash) == Ok::<bool, Seq<char>>(true)
}

/// A character of the B64 alphabet (standard Base64 without padding).
pub open spec fn is_b64_char(c: char) -> bool {
    ('A' <= c && c <= 'Z') || ('a' <= c && c <= 'z') || ('0' <= c && c <= '9') || c == '+' || c
        == '/'
}

/// The shape of a salt drawn by `generate_salt`: sixteen bytes written in
/// canonical B64, that is 22 characters of the B64 alphabet whose last one
/// carries two bits of data and four zero bits (`A`, `Q`, `g` or `w`).
pub open spec fn is_generated_salt(salt: Seq<char>) -> bool {
    &&& salt.len() == 22
    &&& forall|i: int| 0 <= i < 22 ==> is_b64_char(#[trigger] salt[i])
    &&& (salt[21] == 'A' || salt[21] == 'Q' || salt[21] == 'g' || salt[21] == 'w')
}

/// `SaltString::generate` with the operating system's random source: a
/// fresh random salt. Trusted: it is sixteen random bytes written in
/// canonical unpadded B64 (`is_generated_salt`); which bytes is left open.
#[verifier::external_body]
pub(crate) fn generate_salt() -> (s: String)
    ensures
        is_generated_salt(s@),
{
    SaltString::generate(&mut OsRng).as_str().to_owned()
}

/// `Argon2::default().hash_password`, with the salt given by its B64 text
/// (`Salt::from_b64`). Trusted: the PHC string of the hash, or the text of
/// the error, is `argon2_hash_outcome(password, salt)`; and a PHC string
/// produced here parses back and `password` checks out against it, since
/// verifying recomputes the hash with the algorithm, version, parameters
/// and salt that the string records.
#[verifier::external_body]
pub(crate) fn argon2_hash(password: &[u8], salt: &str) -> (r: Result<String, String>)
    ensures
        text_result_view(r) == argon2_hash_outcome(password@, salt@),
        match r {
            Ok(h) => checks_out(password@, h@),
            Err(_) => true,
        },
{
    match Salt::from_b64(salt) {
        Ok(salt) => match Argon2::default().hash_password(password, salt) {
            Ok(hash) => Ok(hash.to_string()),
            Err(e) => Err(e.to_string()),
        },
        Err(e) => Err(e.to_string()),
    }
}

/// `PasswordHash::new` followed by `Argon2::default().verify_password`.
/// Trusted: the outcome is `argon2_verify_outcome(password, hash)`.
#[verifier::external_body]
pub(crate) fn argon2_verify(password: &[u8], hash: &str) -> (r: Result<bool, String>)
    ensures
        check_result_view(r) == argon2_verify_outcome(password@, hash@),
{
    match PasswordHash::new(hash) {
        Ok(parsed) => Ok(Argon2::default().verify_password(password, &parsed).is_ok()),
        Err(e) => Err(e.to_string()),
    }
}

/// Hashes `password` with `salt`; a failure of the hasher is an internal
/// error carrying its text. The password checks out against the hash made.
pub fn hash_with_salt(password: &[u8], salt: &str) -> (r: Result<String, ApiError>)
    ensures
        match argon2_hash_outcome(password@, salt@) {
            Ok(h) => r matches Ok(s) && s@ == h && checks_out(password@, h),
            Err(m) => r matches Err(e) && e.status == 500 && e.message@ == m,
        },
{
    match argon2_hash(password, salt) {
        Ok(h) => Ok(h),
        Err(m) => Err(ApiError::internal(m)),
    }
}

} // verus!
