//! Password hashing: an opaque one-way function with verification.
//!
//! The primitive is `bcrypt`. Whether a password matches a stored hash is
//! a function of the two strings alone (the salt is part of the hash), and
//! is named by [`password_matches`]; hashing itself draws a fresh random
//! salt, so nothing is stated about the hash string beyond what it
//! verifies against.

use vstd::prelude::*;

verus! {

/// Whether `bcrypt` verification accepts `password` against the stored
/// string `hashed` (false also when `hashed` is not a well-formed hash).
pub uninterp spec fn password_matches(password: Seq<char>, hashed: Seq<char>) -> bool;

/// Relies on `bcrypt::verify`: recomputes the hash with the salt and cost
/// carried by `hashed` and compares; a malformed `hashed` is a mismatch.
#[verifier::external_body]
pub fn verify_password(password: &str, hashed: &str) -> (r: bool)
    ensures
        r == password_matches(password@, hashed@),
{
    bcrypt::verify(password, hashed).unwrap_or(false)
}

/// Relies on `bcrypt::hash`: the hash it returns verifies against the
/// password it was derived from. The salt is random, so two calls on one
/// password may differ; nothing more is promised of the result.
#[verifier::external_body]
pub fn hash_password(password: &str) -> (r: Option<String>)
    ensures
        r matches Some(h) ==> password_matches(password@, h@),
{
    bcrypt::hash(password, bcrypt::DEFAULT_COST).ok()
}

} // verus!
