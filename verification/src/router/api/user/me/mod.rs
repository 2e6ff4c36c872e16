//! The caller's own profile.

pub mod avatar;
pub mod email;
pub mod idp;
pub mod note;

use vstd::prelude::*;

use crate::model::User;
use crate::traits::{fails_bad_request, fails_not_found, WebError};
use crate::util::crypto::{argon2_verifies, check_password, hash_password, phc_parses};

verus! {

/// The caller's profile as the database holds it, or `NotFound("")`.
pub fn get_user_profile(found: Option<User>) -> (r: Result<User, WebError>)
    ensures
        match found {
            Some(u) => r == Ok::<User, WebError>(u),
            None => fails_not_found(r, Seq::<char>::empty()),
        },
{
    match found {
        Some(u) => Ok(u),
        None => Err(WebError::NotFound(String::new())),
    }
}

/// Body of a profile update; a missing field is left as it is.
pub struct UpdateUserProfileRequest {
    pub name: Option<String>,
    pub description: Option<String>,
}

/// Body of an account deletion (the captcha answer travels beside it).
pub struct DeleteUserProfileRequest {
    pub password: String,
}

/// Body of a password change.
pub struct UpdateUserProfilePasswordRequest {
    pub old_password: String,
    pub new_password: String,
}

/// Checks a password against the caller's stored hash: `BadRequest(failure)`
/// when it does not verify; `None` when the stored hash is not a PHC string.
pub fn authenticate(password: String, hash: String, failure: &str) -> (r: Option<Result<(), WebError>>)
    ensures
        !phc_parses(hash@) ==> r is None,
        phc_parses(hash@) && argon2_verifies(password@, hash@) ==> r == Some(Ok::<(), WebError>(())),
        phc_parses(hash@) && !argon2_verifies(password@, hash@) ==> (r matches Some(x)
            && fails_bad_request(x, failure@)),
{
    match check_password(password, hash) {
        None => None,
        Some(true) => Some(Ok(())),
        Some(false) => Some(Err(WebError::BadRequest(String::from_str(failure)))),
    }
}

/// Deleting the account needs the account's password:
/// `BadRequest("password_invalid")` otherwise; `None` when the stored hash is
/// not a PHC string.
pub fn delete_user_profile(operator: &User, body: DeleteUserProfileRequest) -> (r: Option<Result<(), WebError>>)
    ensures
        !phc_parses(operator.hashed_password@) ==> r is None,
        phc_parses(operator.hashed_password@) && argon2_verifies(body.password@, operator.hashed_password@)
            ==> r == Some(Ok::<(), WebError>(())),
        phc_parses(operator.hashed_password@) && !argon2_verifies(body.password@, operator.hashed_password@)
            ==> (r matches Some(x) && fails_bad_request(x, "password_invalid"@)),
{
    authenticate(body.password, operator.hashed_password.clone(), "password_invalid")
}

/// A password change needs the current password (`BadRequest("invalid")`
/// otherwise) and gives the hash of the new one to store, which verifies the
/// new password; `None` when the stored hash is not a PHC string.
pub fn update_user_profile_password(operator: &User, body: UpdateUserProfilePasswordRequest) -> (r:
    Option<Result<String, WebError>>)
    requires
        vstd::utf8::encode_utf8(body.new_password@).len() <= 0xFFFF_FFFF,
    ensures
        !phc_parses(operator.hashed_password@) ==> r is None,
        phc_parses(operator.hashed_password@) && !argon2_verifies(body.old_password@, operator.hashed_password@)
            ==> (r matches Some(x) && fails_bad_request(x, "invalid"@)),
        phc_parses(operator.hashed_password@) && argon2_verifies(body.old_password@, operator.hashed_password@)
            ==> (r matches Some(Ok(h)) && phc_parses(h@) && argon2_verifies(body.new_password@, h@)),
{
    match authenticate(body.old_password, operator.hashed_password.clone(), "invalid") {
        None => None,
        Some(Err(e)) => Some(Err(e)),
        Some(Ok(())) => Some(Ok(hash_password(body.new_password))),
    }
}

} // verus!
