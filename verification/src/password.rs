//! Passwords are kept as Argon2 hashes. The hashing itself is the work of
//! the `argon2` crate; what is decided here is what its answers mean.

use vstd::prelude::*;

verus! {

/// Why a password could not be hashed or checked.
#[derive(Clone, Copy, Debug, PartialEq, Eq, Structural)]
pub enum PasswordError {
    /// The hashing function gave no hash.
    HashingFailed,
    /// The stored hash is not in the form of a password hash.
    InvalidHash,
}

/// The hash, as a PHC string, that Argon2 with its default parameters
/// computes of a password and a salt; `None` where it computes none.
pub uninterp spec fn argon2_hash_of(password: Seq<char>, salt: Seq<char>) -> Option<Seq<char>>;

/// Whether a password matches a stored hash, as Argon2 checks it; `None`
/// where the stored text is no PHC string.
pub uninterp spec fn argon2_check_of(password: Seq<char>, hash: Seq<char>) -> Option<bool>;

/// The characters of an optional string.
pub open spec fn hash_chars(text: Option<String>) -> Option<Seq<char>> {
    match text {
        Some(t) => Some(t@),
        None => None,
    }
}

/// `SaltString::generate` on the operating system's random numbers, as a
/// string. Nothing is claimed of a random value. The outside function gives
/// up only where the operating system has no random numbers to give.
#[verifier::external_body]
fn fresh_salt() -> (salt: String)
{
    argon2::password_hash::SaltString::generate(&mut argon2::password_hash::rand_core::OsRng)
        .as_str()
        .to_string()
}

/// `PasswordHasher::hash_password` of `Argon2::default()`, with the salt
/// read by `SaltString::from_b64` and the hash written out by its
/// `Display`.
#[verifier::external_body]
fn hash_with_salt(password: &str, salt: &str) -> (hash: Option<String>)
    ensures
        hash_chars(hash) == argon2_hash_of(password@, salt@),
{
    let salt = argon2::password_hash::SaltString::from_b64(salt).ok()?;
    let hasher = argon2::Argon2::default();
    match argon2::PasswordHasher::hash_password(&hasher, password.as_bytes(), &salt) {
        Ok(hash) => Some(hash.to_string()),
        Err(_) => None,
    }
}

/// `PasswordVerifier::verify_password` of `Argon2::default()`, on the hash
/// that `PasswordHash::new` reads from the stored text. The check is run
/// with the cost that the stored hash names, and takes the time and the
/// memory that this cost asks for.
#[verifier::external_body]
fn check_with_hash(password: &str, hash: &str) -> (matches: Option<bool>)
    ensures
        matches == argon2_check_of(password@, hash@),
{
    let parsed = argon2::PasswordHash::new(hash).ok()?;
    let hasher = argon2::Argon2::default();
    Some(argon2::PasswordVerifier::verify_password(&hasher, password.as_bytes(), &parsed).is_ok())
}

/// What the answer of the hashing function means.
pub fn hashed(outcome: Option<String>) -> (hash: Result<String, PasswordError>)
    ensures
        match outcome {
            Some(text) => hash == Ok::<String, PasswordError>(text),
            None => hash == Err::<String, PasswordError>(PasswordError::HashingFailed),
        },
{
    match outcome {
        Some(text) => Ok(text),
        None => Err(PasswordError::HashingFailed),
    }
}

/// What the answer of the check means.
pub fn verdict(outcome: Option<bool>) -> (matches: Result<bool, PasswordError>)
    ensures
        matches == spec_verdict(outcome),
{
    match outcome {
        Some(matches) => Ok(matches),
        None => Err(PasswordError::InvalidHash),
    }
}

/// What the answer of the check means.
pub open spec fn spec_verdict(outcome: Option<bool>) -> Result<bool, PasswordError> {
    match outcome {
        Some(matches) => Ok(matches),
        None => Err(PasswordError::InvalidHash),
    }
}

/// Hashes a password under a fresh random salt. Whatever salt came up, the
/// hash is the one that Argon2 computes of the password and that salt.
pub fn hash_password(password: &str) -> (hash: Result<String, PasswordError>)
    ensures
        match hash {
            Ok(text) => exists|salt: Seq<char>| argon2_hash_of(password@, salt) == Some(text@),
            Err(e) => e == PasswordError::HashingFailed,
        },
{
    let salt = fresh_salt();
    let outcome = hash_with_salt(password, salt.as_str());
    hashed(outcome)
}

/// Checks a password against a stored hash.
pub fn verify_password(password: &str, hash: &str) -> (matches: Result<bool, PasswordError>)
    ensures
        matches == spec_verdict(argon2_check_of(password@, hash@)),
{
    verdict(check_with_hash(password, hash))
}

} // verus!
