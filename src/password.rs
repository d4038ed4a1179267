use vstd::prelude::*;

verus! {

#[verifier::external_type_specification]
#[verifier::external_body]
pub struct ExPasswordHashError(argon2::password_hash::Error);

/// Whether Argon2 accepts `password` against the self-describing hash string `phc`.
pub uninterp spec fn argon2_accepts(password: Seq<u8>, phc: Seq<char>) -> bool;

/// Relies on argon2's `SaltString::generate` (a fresh salt from the operating
/// system's random source), `Argon2::hash_password` with default parameters and
/// the PHC encoding of its result. Verification re-derives the key from the
/// parameters and salt held in that string, so it accepts the same password.
#[verifier::external_body]
fn argon2_hash(password: &[u8]) -> (r: Result<String, argon2::password_hash::Error>)
    ensures
        r matches Ok(h) ==> argon2_accepts(password@, h@),
{
    let salt = argon2::password_hash::SaltString::generate(
        &mut argon2::password_hash::rand_core::OsRng,
    );
    argon2::password_hash::PasswordHasher::hash_password(
        &argon2::Argon2::default(),
        password,
        &salt,
    ).map(|hash| hash.to_string())
}

/// Relies on argon2's `PasswordHash::new` and `Argon2::verify_password`: the
/// answer depends on the password and the hash string alone, and a string that
/// does not parse is answered `false`.
#[verifier::external_body]
fn argon2_verify(password: &[u8], phc: &str) -> (r: bool)
    ensures
        r == argon2_accepts(password@, phc@),
{
    match argon2::password_hash::PasswordHash::new(phc) {
        Ok(parsed) => argon2::password_hash::PasswordVerifier::verify_password(
            &argon2::Argon2::default(),
            password,
            &parsed,
        ).is_ok(),
        Err(_) => false,
    }
}

#[derive(Debug)]
pub enum HashPasswordError {
    HashError(argon2::password_hash::Error),
}

/// Derives a salted Argon2 hash of `password`. The salt is random, so two
/// calls give different strings; every string returned verifies `password`.
pub fn hash_password(password: &[u8]) -> (r: Result<String, HashPasswordError>)
    ensures
        r matches Ok(h) ==> argon2_accepts(password@, h@),
{
    match argon2_hash(password) {
        Ok(h) => Ok(h),
        Err(e) => Err(HashPasswordError::HashError(e)),
    }
}

/// Checks `password` against a stored hash. A malformed hash is a mismatch,
/// never an error, so that it cannot be told apart from a wrong password.
pub fn verify_password(password: &[u8], hashed_password: &str) -> (r: bool)
    ensures
        r == argon2_accepts(password@, hashed_password@),
{
    argon2_verify(password, hashed_password)
}

/// A password verifies against every hash made from it: `verified` is what
/// `verify_password` answers for `password` and the string that
/// `hash_password` returned for it.
pub proof fn lemma_hash_then_verify(
    password: Seq<u8>,
    hashed: Result<String, HashPasswordError>,
    verified: bool,
)
    requires
        hashed matches Ok(h) ==> argon2_accepts(password, h@),
        hashed matches Ok(h) && verified == argon2_accepts(password, h@),
    ensures
        verified,
{
}

} // verus!
