//! Salted, one-way password hashing, done by `argon2`.
use vstd::prelude::*;

verus! {

/// Whether `argon2` (default parameters) accepts `password` against the
/// PHC-format string `hash`. A hash that does not parse is never accepted.
pub uninterp spec fn argon2_accepts(password: Seq<char>, hash: Seq<char>) -> bool;

/// Relies on `argon2::Argon2::hash_password` with default parameters and a
/// fresh salt from the operating system: the PHC string that it returns
/// carries the salt and parameters, so verifying the same password against
/// it succeeds. The salt is random: nothing else is said of the result.
#[verifier::external_body]
pub(crate) fn hash_password(password: &str) -> (r: Option<String>)
    ensures
        match r {
            Some(h) => argon2_accepts(password@, h@),
            None => true,
        },
{
    let salt = argon2::password_hash::SaltString::generate(&mut argon2::password_hash::rand_core::OsRng);
    let hasher = argon2::Argon2::default();
    argon2::PasswordHasher::hash_password(&hasher, password.as_bytes(), &salt).ok().map(|h| h.to_string())
}

/// Relies on `argon2::PasswordHash::new` and `PasswordVerifier::verify_password`:
/// `true` exactly when the hash parses and the password matches it.
#[verifier::external_body]
pub(crate) fn verify_password(password: &str, password_hash: &str) -> (r: bool)
    ensures
        r == argon2_accepts(password@, password_hash@),
{
    match argon2::PasswordHash::new(password_hash) {
        Ok(parsed) => argon2::PasswordVerifier::verify_password(&argon2::Argon2::default(), password.as_bytes(), &parsed).is_ok(),
        Err(_) => false,
    }
}

} // verus!
