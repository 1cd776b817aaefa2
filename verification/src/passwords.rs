//! Hashing passwords and checking them against stored hashes.

use vstd::prelude::*;

verus! {

/// Whether `bcrypt` finds that a password matches a hash; `None` when the
/// hash is malformed.
pub uninterp spec fn bcrypt_verifies(password: Seq<char>, hash: Seq<char>) -> Option<bool>;

/// Calls `bcrypt::verify`.
///
/// Trusted: the outcome depends on the password and the hash alone.
#[verifier::external_body]
pub(crate) fn bcrypt_verify(password: &str, hash: &str) -> (outcome: Option<bool>)
    ensures
        outcome == bcrypt_verifies(password@, hash@),
{
    bcrypt::verify(password, hash).ok()
}

/// Calls `bcrypt::hash` with `bcrypt::DEFAULT_COST`.
///
/// The hash differs from call to call, since its salt is drawn at
/// random. Trusted: whatever hash comes back, the password verifies
/// against it.
#[verifier::external_body]
pub(crate) fn bcrypt_hash(password: &str) -> (hashed: Option<String>)
    ensures
        hashed matches Some(hash) ==> bcrypt_verifies(password@, hash@) == Some(true),
{
    bcrypt::hash(password, bcrypt::DEFAULT_COST).ok()
}

/// Whether a password matches a stored hash. A malformed hash matches no
/// password.
pub fn verify_password(password: &str, stored_hash: &str) -> (matches: bool)
    ensures
        matches == (bcrypt_verifies(password@, stored_hash@) == Some(true)),
{
    match bcrypt_verify(password, stored_hash) {
        Some(outcome) => outcome,
        None => false,
    }
}

/// Why a password could not be stored.
#[derive(Clone, Copy, Debug, PartialEq, Eq, Structural)]
pub enum PasswordError {
    /// The password could not be hashed.
    Hashing,
}

/// The message of the error.
pub const HASHING_FAILED: &'static str = "Error al hashear contraseña";

impl PasswordError {
    /// The message of the error.
    pub fn message(&self) -> (text: &'static str)
        ensures
            text@ == HASHING_FAILED@,
    {
        HASHING_FAILED
    }
}

/// Hashes a password for storage. The password verifies against the hash
/// that is returned.
pub fn hash_password(password: &str) -> (hashed: Result<String, PasswordError>)
    ensures
        hashed matches Ok(hash) ==> bcrypt_verifies(password@, hash@) == Some(true),
{
    match bcrypt_hash(password) {
        Some(hash) => Ok(hash),
        None => Err(PasswordError::Hashing),
    }
}

} // verus!
