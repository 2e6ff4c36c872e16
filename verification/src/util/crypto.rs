//! Password hashing with Argon2.

use argon2::{PasswordHasher, PasswordVerifier};
use vstd::prelude::*;

verus! {

/// Whether `argon2::PasswordHash::new` accepts a text as a PHC hash string.
pub uninterp spec fn phc_parses(hash: Seq<char>) -> bool;

/// What `Argon2::default().verify_password` concludes for a password and a
/// PHC hash string that parses: whether the password hashes to it.
pub uninterp spec fn argon2_verifies(password: Seq<char>, hash: Seq<char>) -> bool;

/// Hashes a password with `Argon2::default().hash_password` under a fresh
/// random salt and renders the PHC string. The salt is random, so nothing
/// names the result; the contract claims what the `argon2` documentation shows
/// of every outcome: the string parses as a PHC hash and the password verifies
/// against it. Hashing fails only for a password longer than `u32::MAX`
/// bytes, which `requires` leaves out.
#[verifier::external_body]
pub fn hash_password(password: String) -> (hash: String)
    requires
        vstd::utf8::encode_utf8(password@).len() <= 0xFFFF_FFFF,
    ensures
        phc_parses(hash@),
        argon2_verifies(password@, hash@),
{
    let salt = argon2::password_hash::SaltString::generate(
        &mut argon2::password_hash::rand_core::OsRng,
    );
    let argon2 = argon2::Argon2::default();
    argon2.hash_password(password.as_bytes(), &salt).unwrap().to_string()
}

/// Whether `argon2::PasswordHash::new` accepts a text (the call
/// `verify_password` makes first).
#[verifier::external_body]
pub(crate) fn is_password_hash(hash: &str) -> (r: bool)
    ensures
        r == phc_parses(hash@),
{
    argon2::PasswordHash::new(hash).is_ok()
}

/// Verifies a password against a PHC hash string with
/// `Argon2::default().verify_password`; the contract claims only that the
/// result is that function's verdict on these arguments. A hash that does not
/// parse makes the call panic, which `requires` leaves out.
#[verifier::external_body]
pub fn verify_password(password: String, hash: String) -> (r: bool)
    requires
        phc_parses(hash@),
    ensures
        r == argon2_verifies(password@, hash@),
{
    let argon2 = argon2::Argon2::default();
    argon2.verify_password(password.as_bytes(), &argon2::PasswordHash::new(&hash).unwrap()).is_ok()
}

/// Verifies a password against a stored hash, or `None` when the stored text
/// is not a PHC hash string at all.
pub fn check_password(password: String, hash: String) -> (r: Option<bool>)
    ensures
        !phc_parses(hash@) ==> r is None,
        phc_parses(hash@) ==> r == Some(argon2_verifies(password@, hash@)),
{
    if !is_password_hash(hash.as_str()) {
        return None;
    }
    Some(verify_password(password, hash))
}

} // verus!
