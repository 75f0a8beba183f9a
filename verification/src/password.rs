//! Password hashing and verification with Argon2id (default parameters),
//! stored as PHC strings.

use vstd::prelude::*;
use argon2::password_hash::rand_core::{OsRng, RngCore};
use argon2::password_hash::SaltString;
use crate::error::AppError;

verus! {

/// Whether `PasswordHash::new` accepts `hash` as a PHC string.
pub uninterp spec fn phc_parses(hash: Seq<char>) -> bool;

/// Whether the default Argon2 instance's `verify_password` accepts `password`
/// against the parsed PHC string `hash`: hashing the password again with the
/// algorithm, version, parameters and salt written in `hash` reproduces the
/// output written there.
pub uninterp spec fn argon2_matches(password: Seq<char>, hash: Seq<char>) -> bool;

/// What checking `password` against the stored text `hash` answers: `None`
/// when the text is no PHC string, else whether the password matches.
pub open spec fn password_check(password: Seq<char>, hash: Seq<char>) -> Option<bool> {
    if phc_parses(hash) { Some(argon2_matches(password, hash)) } else { None }
}

/// Whether `hash` is a stored hash of `password`: a PHC string that the
/// password matches.
pub open spec fn is_hash_of(password: Seq<char>, hash: Seq<char>) -> bool {
    phc_parses(hash) && argon2_matches(password, hash)
}

/// `PasswordHash::new` on the stored text, then `PasswordVerifier::verify_password`
/// of the default Argon2 instance. Claimed: `None` exactly when the text does
/// not parse (`phc_parses`), else whether the password matches
/// (`argon2_matches`); both depend on the two texts alone, since the salt and
/// parameters are read from the hash.
#[verifier::external_body]
fn argon2_check(password: &str, hash: &str) -> (r: Option<bool>)
    ensures r == (if phc_parses(hash@) { Some(argon2_matches(password@, hash@)) } else { None }),
{
    match argon2::PasswordHash::new(hash) {
        Ok(parsed) => Some(
            argon2::PasswordVerifier::verify_password(&argon2::Argon2::default(), password.as_bytes(), &parsed).is_ok(),
        ),
        Err(_) => None,
    }
}

/// `PasswordHasher::hash_password` of the default Argon2 instance with a salt
/// of 16 random bytes from the operating system (`OsRng::try_fill_bytes`,
/// then `SaltString::encode_b64`), as its PHC string. The text is random;
/// claimed of every outcome: a produced hash parses and the same password
/// matches it, since verification recomputes with the salt and parameters
/// written in it. `None` when the random source or the hasher fails.
#[verifier::external_body]
fn argon2_hash(password: &str) -> (r: Option<String>)
    ensures r matches Some(h) ==> phc_parses(h@) && argon2_matches(password@, h@),
{
    let mut bytes = [0u8; 16];
    let filled = OsRng.try_fill_bytes(&mut bytes);
    match (filled, SaltString::encode_b64(&bytes)) {
        (Ok(()), Ok(salt)) => match argon2::PasswordHasher::hash_password(&argon2::Argon2::default(), password.as_bytes(), &salt) {
            Ok(hash) => Some(hash.to_string()),
            Err(_) => None,
        },
        _ => None,
    }
}

/// Hash a password for storage; a failure of the hasher is an internal error.
/// Whatever hash comes back, the same password verifies against it.
pub fn hash_password(password: &str) -> (r: Result<String, AppError>)
    ensures
        r matches Ok(h) ==> is_hash_of(password@, h@),
        r matches Err(e) ==> e matches AppError::Internal(m) && m@ == "password hash failed"@,
{
    match argon2_hash(password) {
        Some(hash) => Ok(hash),
        None => Err(AppError::internal("password hash failed")),
    }
}

/// Check a password against a stored PHC hash: a stored hash that does not
/// parse is an internal error, otherwise the answer is whether it matches.
pub fn verify_password(password: &str, hash: &str) -> (r: Result<bool, AppError>)
    ensures
        phc_parses(hash@) ==> r == Ok::<bool, AppError>(argon2_matches(password@, hash@)),
        !phc_parses(hash@) ==> (r matches Err(e) && e matches AppError::Internal(m) && m@ == "stored hash invalid"@),
{
    match argon2_check(password, hash) {
        Some(ok) => Ok(ok),
        None => Err(AppError::internal("stored hash invalid")),
    }
}

/// A password hashed for storage verifies against its hash: whatever hash
/// `hash_password` returns, `verify_password` with the same password answers
/// `Ok(true)`.
pub proof fn stored_hash_verifies(password: Seq<char>, hash: Seq<char>)
    requires is_hash_of(password, hash),
    ensures password_check(password, hash) == Some(true),
{
}

} // verus!
