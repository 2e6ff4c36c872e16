//! Signing in, registering and signing out.

pub mod forget;
pub mod me;
pub mod profile;
pub mod user_id;

use vstd::prelude::*;

use crate::model::{Group, User};
use crate::traits::{fails_bad_request, fails_conflict, WebError};
use crate::util::crypto::{argon2_verifies, check_password, hash_password, phc_parses};
use crate::util::text::{lowercase, to_lowercase};
use crate::util::validate::{email_valid, length_within, validate_email, validate_length};

verus! {

/// A failed captcha is refused with `BadRequest("captcha_invalid")`.
pub fn check_captcha(passed: bool) -> (r: Result<(), WebError>)
    ensures
        passed ==> r is Ok,
        !passed ==> fails_bad_request(r, "captcha_invalid"@),
{
    if !passed {
        return Err(WebError::BadRequest(String::from_str("captcha_invalid")));
    }
    Ok(())
}

/// Body of a sign-in (the captcha answer travels beside it).
pub struct UserLoginRequest {
    pub account: String,
    pub password: String,
}

/// The account name a sign-in looks up: the given one in lower case.
pub fn login_account(body: &UserLoginRequest) -> (a: String)
    ensures
        a@ == lowercase(body.account@),
{
    to_lowercase(body.account.as_str())
}

/// A sign-in succeeds with the account found and a password that verifies
/// against its hash; anything else is the same `BadRequest("invalid")`, so a
/// caller cannot tell a missing account from a wrong password. `None` when the
/// account's stored hash is not a PHC string (the check cannot be made).
pub fn login_user(found: Option<User>, password: String) -> (r: Option<Result<User, WebError>>)
    ensures
        match found {
            None => r matches Some(x) && fails_bad_request(x, "invalid"@),
            Some(u) => if !phc_parses(u.hashed_password@) {
                r is None
            } else if argon2_verifies(password@, u.hashed_password@) {
                r == Some(Ok::<User, WebError>(u))
            } else {
                r matches Some(x) && fails_bad_request(x, "invalid"@)
            },
        },
        (r matches Some(x) && x is Ok) == login_accepts(found, password@),
{
    match found {
        None => Some(Err(WebError::BadRequest(String::from_str("invalid")))),
        Some(u) => {
            let hash = u.hashed_password.clone();
            match check_password(password, hash) {
                None => None,
                Some(true) => Some(Ok(u)),
                Some(false) => Some(Err(WebError::BadRequest(String::from_str("invalid")))),
            }
        },
    }
}

/// Body of a registration (the captcha answer travels beside it).
pub struct UserRegisterRequest {
    pub name: String,
    pub username: String,
    pub email: String,
    pub password: String,
}

impl UserRegisterRequest {
    /// The field rules of a registration: a username of 3 to 20 characters
    /// and an e-mail address.
    pub fn validate(&self) -> (r: bool)
        ensures
            r == (length_within(self.username@, 3, 20) && email_valid(self.email@)),
    {
        validate_length(self.username.as_str(), 3, 20) && validate_email(self.email.as_str())
    }
}

/// Registration is refused with `BadRequest("registration_disabled")` while
/// the platform has it switched off.
pub fn check_registration_enabled(enabled: bool) -> (r: Result<(), WebError>)
    ensures
        enabled ==> r is Ok,
        !enabled ==> fails_bad_request(r, "registration_disabled"@),
{
    if !enabled {
        return Err(WebError::BadRequest(String::from_str("registration_disabled")));
    }
    Ok(())
}

/// The registration with e-mail address and username in lower case.
pub fn normalize_registration(body: UserRegisterRequest) -> (b: UserRegisterRequest)
    ensures
        b.name == body.name,
        b.username@ == lowercase(body.username@),
        b.email@ == lowercase(body.email@),
        b.password == body.password,
{
    let username = to_lowercase(body.username.as_str());
    let email = to_lowercase(body.email.as_str());
    UserRegisterRequest { name: body.name, username, email, password: body.password }
}

/// A taken e-mail address is refused with `Conflict("email_already_exists")`.
pub fn check_email_unique(unique: bool) -> (r: Result<(), WebError>)
    ensures
        unique ==> r is Ok,
        !unique ==> fails_conflict(r, "email_already_exists"@),
{
    if !unique {
        return Err(WebError::Conflict(String::from_str("email_already_exists")));
    }
    Ok(())
}

/// A taken username is refused with `Conflict("username_already_exists")`.
pub fn check_username_unique(unique: bool) -> (r: Result<(), WebError>)
    ensures
        unique ==> r is Ok,
        !unique ==> fails_conflict(r, "username_already_exists"@),
{
    if !unique {
        return Err(WebError::Conflict(String::from_str("username_already_exists")));
    }
    Ok(())
}

/// The group of a new account: the first account of the platform becomes its
/// administrator, every later one a user.
pub open spec fn new_group(existing_users: u64) -> Group {
    if existing_users == 0 { Group::Admin } else { Group::User }
}

/// Only the platform's first account is made administrator: with no account
/// yet the new one is `Admin`, with any account already there it is `User`.
pub proof fn lemma_new_group(existing_users: u64)
    ensures
        existing_users == 0 ==> new_group(existing_users) == Group::Admin,
        existing_users > 0 ==> new_group(existing_users) == Group::User,
{
}

/// An account to be stored.
pub struct NewUser {
    pub username: String,
    pub name: String,
    pub hashed_password: String,
    pub group: Group,
}

/// The account a registration stores: its username and name, a fresh hash of
/// its password, and the group [`new_group`] gives.
pub fn new_user(body: UserRegisterRequest, existing_users: u64) -> (u: NewUser)
    requires
        vstd::utf8::encode_utf8(body.password@).len() <= 0xFFFF_FFFF,
    ensures
        u.username == body.username,
        u.name == body.name,
        phc_parses(u.hashed_password@),
        argon2_verifies(body.password@, u.hashed_password@),
        u.group == new_group(existing_users),
{
    let hashed_password = hash_password(body.password);
    let group = if existing_users == 0 { Group::Admin } else { Group::User };
    NewUser { username: body.username, name: body.name, hashed_password, group }
}

/// An e-mail address to be stored.
pub struct NewEmail {
    pub user_id: i64,
    pub email: String,
    pub verified: bool,
}

/// A new address counts as verified exactly when the platform sends no mail
/// to verify it.
pub fn new_email(user_id: i64, email: String, email_enabled: bool) -> (e: NewEmail)
    ensures
        e.user_id == user_id,
        e.email == email,
        e.verified == !email_enabled,
{
    NewEmail { user_id, email, verified: !email_enabled }
}

/// Whether a sign-in with `password` succeeds on what the account lookup
/// found.
pub open spec fn login_accepts(found: Option<User>, password: Seq<char>) -> bool {
    found matches Some(u) && phc_parses(u.hashed_password@) && argon2_verifies(
        password,
        u.hashed_password@,
    )
}

/// An account stored by a registration signs in with the registered password:
/// `new_user` promises the stored hash verifies it, and `login_user` accepts
/// exactly such a password.
pub proof fn lemma_registered_user_can_login(password: Seq<char>, stored: User)
    requires
        phc_parses(stored.hashed_password@),
        argon2_verifies(password, stored.hashed_password@),
    ensures
        login_accepts(Some(stored), password),
{
}

} // verus!
