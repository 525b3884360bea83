//! Password hashing and verification, delegated to bcrypt.

use vstd::prelude::*;

verus! {

/// Whether bcrypt's `verify` accepts a candidate password against a stored
/// hash. Verification re-derives the hash from the salt embedded in the
/// stored string, so it is a function of its two arguments.
pub uninterp spec fn bcrypt_matches(password: Seq<char>, hashed: Seq<char>) -> bool;

/// Whether bcrypt's `verify` can parse this stored hash at all: a function
/// of the hash text alone. Every hash that bcrypt's `hash` produced parses.
pub uninterp spec fn bcrypt_hash_parses(hashed: Seq<char>) -> bool;

/// Relies on bcrypt's `hash` with the default cost: the salted hash is a
/// 60-character string that `verify` accepts against the hashed password.
#[verifier::external_body]
pub(crate) fn hash_password(password: &str) -> (r: Result<String, String>)
    ensures
        r matches Ok(h) ==> h@.len() == 60 && bcrypt_matches(password@, h@)
            && bcrypt_hash_parses(h@),
{
    match bcrypt::hash(password, bcrypt::DEFAULT_COST) {
        Ok(h) => Ok(h),
        Err(e) => Err(e.to_string()),
    }
}

/// Relies on bcrypt's `verify`: a function of the candidate password and
/// the stored hash, failing exactly on a stored hash that does not parse.
#[verifier::external_body]
pub(crate) fn verify_password(password: &str, hashed: &str) -> (r: Result<bool, String>)
    ensures
        r matches Ok(b) ==> b == bcrypt_matches(password@, hashed@),
        r is Ok <==> bcrypt_hash_parses(hashed@),
{
    match bcrypt::verify(password, hashed) {
        Ok(b) => Ok(b),
        Err(e) => Err(e.to_string()),
    }
}

} // verus!
