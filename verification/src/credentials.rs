//! Password credentials, hashed and checked by the `bcrypt` crate.

use vstd::prelude::*;

verus! {

/// What `bcrypt::verify` makes of a password and a stored hash: whether the password fits the
/// hash, or the text of the error with which it refuses the hash.
pub uninterp spec fn bcrypt_verify(password: Seq<char>, hash: Seq<char>) -> Result<
    bool,
    Seq<char>,
>;

/// The view of a verdict or an error text.
pub open spec fn verdict_view(r: Result<bool, String>) -> Result<bool, Seq<char>> {
    match r {
        Ok(b) => Ok(b),
        Err(e) => Err(e@),
    }
}

/// Hashes the bytes of `password` with `bcrypt::hash` at `bcrypt::DEFAULT_COST`, under a salt
/// that bcrypt draws afresh on every call; the error's text where bcrypt fails. Whatever the
/// salt, `bcrypt::verify` accepts the password against the hash that comes back: it hashes
/// the password again under the salt and cost that the hash names.
#[verifier::external_body]
pub(crate) fn hash_password(password: &str) -> (r: Result<String, String>)
    ensures
        r is Ok ==> bcrypt_verify(password@, r->Ok_0@) == verdict_view(Ok(true)),
{
    bcrypt::hash(password.as_bytes(), bcrypt::DEFAULT_COST).map_err(|e| e.to_string())
}

/// Checks the bytes of `password` against `hash` with `bcrypt::verify`; the error's text where
/// bcrypt cannot read the hash.
#[verifier::external_body]
pub(crate) fn verify_password(password: &str, hash: &str) -> (r: Result<bool, String>)
    ensures
        verdict_view(r) == bcrypt_verify(password@, hash@),
{
    bcrypt::verify(password.as_bytes(), hash).map_err(|e| e.to_string())
}

} // verus!
