//! Verifying the caller's address in the envelope-style API.

use vstd::prelude::*;

use crate::model::User;
use crate::traits::{fails_bad_request, WebError};

verus! {

/// Body of a verification.
pub struct UserVerifyRequest {
    pub code: String,
}

/// A verified account is not verified again:
/// `BadRequest("email_already_verified")`.
pub fn check_not_verified(operator: &User) -> (r: Result<(), WebError>)
    ensures
        !operator.is_verified ==> r is Ok,
        operator.is_verified ==> fails_bad_request(r, "email_already_verified"@),
{
    if operator.is_verified {
        return Err(WebError::BadRequest(String::from_str("email_already_verified")));
    }
    Ok(())
}

} // verus!
