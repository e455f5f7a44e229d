use vstd::prelude::*;

verus! {

/// Whether bcrypt's `verify` accepts `password` against the encoded hash
/// `encoded`: it re-derives the hash with the cost and salt embedded in
/// `encoded` and compares. A deterministic function of its two arguments.
pub uninterp spec fn bcrypt_matches(password: Seq<char>, encoded: Seq<char>) -> bool;

/// Failure of the hasher itself (salt generation); never raised for a merely
/// unusual password.
#[derive(Clone, Copy, Debug, PartialEq, Eq, Structural)]
pub struct HashingError;

/// Relies on bcrypt::hash with DEFAULT_COST: the result is a salted encoded
/// hash of the password, and bcrypt::verify accepts the password against it.
/// The salt is drawn fresh from the OS, so nothing relates two calls.
#[verifier::external_body]
pub fn hash(plaintext: &str) -> (r: Result<String, HashingError>)
    ensures
        r matches Ok(h) ==> bcrypt_matches(plaintext@, h@),
{
    match bcrypt::hash(plaintext, bcrypt::DEFAULT_COST) {
        Ok(h) => Ok(h),
        Err(_) => Err(HashingError),
    }
}

/// Relies on bcrypt::verify, deterministic in (plaintext, encoded); a
/// malformed hash or any internal error counts as a mismatch, not an error.
#[verifier::external_body]
pub fn verify(plaintext: &str, encoded: &str) -> (r: bool)
    ensures
        r == bcrypt_matches(plaintext@, encoded@),
{
    bcrypt::verify(plaintext, encoded).unwrap_or(false)
}

/// Law: a password verifies against a hash freshly derived from it.
pub fn hash_then_verify(plaintext: &str) -> (r: Result<bool, HashingError>)
    ensures
        r matches Ok(b) ==> b,
{
    match hash(plaintext) {
        Ok(h) => Ok(verify(plaintext, h.as_str())),
        Err(e) => Err(e),
    }
}

} // verus!
