//! The caller's profile in the envelope-style API, where a user has one
//! address and a verification flag.

pub mod avatar;
pub mod verify;

use vstd::prelude::*;

use crate::model::User;
use crate::util::text::{format_str, lowercase, prefix_str, to_lowercase};
use crate::util::validate::{optional_email_valid, validate_optional_email};

verus! {

/// Body of a profile update; a missing field is left as it is.
pub struct UpdateUserProfileRequest {
    pub nickname: Option<String>,
    pub email: Option<String>,
    pub description: Option<String>,
}

impl UpdateUserProfileRequest {
    /// The field rule of a profile update: a given address is an e-mail
    /// address.
    pub fn validate(&self) -> (r: bool)
        ensures
            r == optional_email_valid(match self.email { Some(e) => Some(e@), None => None }),
    {
        validate_optional_email(&self.email)
    }
}

/// Body of a password change.
pub struct UpdateUserProfilePasswordRequest {
    pub old_password: String,
    pub new_password: String,
}

/// Body of an account deletion (the captcha answer travels beside it).
pub struct DeleteUserProfileRequest {
    pub password: String,
}

/// The update with its address in lower case.
pub fn normalize_profile_update(body: UpdateUserProfileRequest) -> (b: UpdateUserProfileRequest)
    ensures
        b.nickname == body.nickname,
        b.description == body.description,
        match body.email {
            Some(e) => b.email matches Some(e2) && e2@ == lowercase(e@),
            None => b.email is None,
        },
{
    let email = match body.email {
        Some(e) => Some(to_lowercase(e.as_str())),
        None => None,
    };
    UpdateUserProfileRequest { nickname: body.nickname, email, description: body.description }
}

/// Whether the account counts as verified after an update: a new address
/// loses the verification, keeping the address (or giving none) keeps it.
pub open spec fn verified_after_update(new_email: Option<Seq<char>>, operator: User) -> bool {
    match new_email {
        Some(e) => if e != operator.email@ { false } else { operator.is_verified },
        None => operator.is_verified,
    }
}

/// An update never verifies an account: it counts as verified afterwards
/// exactly when it did before and the update gives no address or the same
/// one; an update without an address leaves the verification as it was.
pub proof fn lemma_verification_after_update(new_email: Option<Seq<char>>, operator: User)
    ensures
        verified_after_update(new_email, operator) == (operator.is_verified && match new_email {
            Some(e) => e == operator.email@,
            None => true,
        }),
        new_email is None ==> verified_after_update(new_email, operator) == operator.is_verified,
        verified_after_update(new_email, operator) ==> operator.is_verified,
{
}

/// Computes whether the account counts as verified after an update.
pub fn profile_verified(new_email: &Option<String>, operator: &User) -> (v: bool)
    ensures
        v == verified_after_update(
            match new_email { Some(e) => Some(e@), None => None },
            *operator,
        ),
{
    match new_email {
        Some(e) => {
            if *e != operator.email {
                false
            } else {
                operator.is_verified
            }
        },
        None => operator.is_verified,
    }
}

/// The username and address a deleted account is left with:
/// `[DELETED]_{username}` and `deleted_{email}@del.cdsctf`, which frees the
/// username and the address for new accounts.
pub fn deleted_account_names(operator: &User) -> (r: (String, String))
    ensures
        r.0@ == "[DELETED]_"@ + operator.username@,
        r.1@ == "deleted_"@ + operator.email@ + "@del.cdsctf"@,
{
    (
        prefix_str("[DELETED]_", operator.username.as_str()),
        format_str("deleted_", operator.email.as_str(), "@del.cdsctf"),
    )
}

} // verus!
