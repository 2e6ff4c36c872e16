//! Resetting a forgotten password by a mailed code.

use vstd::prelude::*;

use crate::model::User;
use crate::traits::{fails_bad_request, WebError};
use crate::router::api::user::me::email::{
    code_accepted, lemma_mail_writes_window, mail_cache_writes, mail_writes, EMAIL_BUFFER_TTL,
    EMAIL_CODE_TTL,
};
use crate::util::cache::{cache_after_writes, cache_lookup, found_text, writes_view, CacheWrite};
use crate::util::text::format_str;

verus! {

/// Body of a password reset.
pub struct UserForgetRequest {
    pub email: String,
    pub code: String,
    pub password: String,
}

/// Body of a request for a reset code.
pub struct UserSendForgetEmailRequest {
    pub email: String,
}

/// The user a reset names by address, or `BadRequest("user_not_found")`.
pub fn forget_user(found: Option<User>) -> (r: Result<User, WebError>)
    ensures
        match found {
            Some(u) => r == Ok::<User, WebError>(u),
            None => fails_bad_request(r, "user_not_found"@),
        },
{
    match found {
        Some(u) => Ok(u),
        None => Err(WebError::BadRequest(String::from_str("user_not_found"))),
    }
}

/// The cache key of a reset or verification code for an address:
/// `email:{email}:code`.
pub open spec fn reset_code_key(email: Seq<char>) -> Seq<char> {
    "email:"@ + email + ":code"@
}

/// The cache key that marks a recent mail to an address: `email:{email}:buffer`.
pub open spec fn reset_buffer_key(email: Seq<char>) -> Seq<char> {
    "email:"@ + email + ":buffer"@
}

/// Builds the cache key of a reset code.
pub fn forget_code_key(email: &str) -> (k: String)
    ensures
        k@ == reset_code_key(email@),
{
    format_str("email:", email, ":code")
}

/// Builds the cache key that marks a recent mail.
pub fn forget_buffer_key(email: &str) -> (k: String)
    ensures
        k@ == reset_buffer_key(email@),
{
    format_str("email:", email, ":buffer")
}

/// The subject of a reset mail.
pub fn reset_subject() -> (s: String)
    ensures
        s@ == "Reset Password"@,
{
    String::from_str("Reset Password")
}

/// The writes a reset mail to an address leaves: its code under
/// `email:{email}:code` for an hour, then the mark under
/// `email:{email}:buffer` for a minute.
pub fn reset_writes(email: &str, code: &str) -> (w: Vec<CacheWrite>)
    ensures
        writes_view(w@) == mail_writes(reset_code_key(email@), reset_buffer_key(email@), code@),
{
    mail_cache_writes(forget_code_key(email), forget_buffer_key(email), code)
}

/// Once a reset mail to an address is sent (its writes made at time `t`),
/// every further request to send one within the next minute finds the mark of
/// the recent mail and is refused as too frequent, and the mailed code is
/// accepted by the reset for the next hour.
pub proof fn lemma_reset_mail_window(
    c: Map<Seq<char>, (Option<Seq<char>>, int)>,
    email: Seq<char>,
    code: Seq<char>,
    t: int,
    t2: int,
)
    ensures
        t <= t2 < t + EMAIL_BUFFER_TTL ==> cache_lookup(
            cache_after_writes(c, mail_writes(reset_code_key(email), reset_buffer_key(email), code), t),
            reset_buffer_key(email),
            t2,
        ) is Some,
        t <= t2 < t + EMAIL_CODE_TTL ==> code_accepted(
            found_text(
                cache_lookup(
                    cache_after_writes(c, mail_writes(reset_code_key(email), reset_buffer_key(email), code), t),
                    reset_code_key(email),
                    t2,
                ),
            ),
            code,
        ),
{
    reveal_strlit("email:");
    reveal_strlit(":code");
    reveal_strlit(":buffer");
    assert(reset_code_key(email).len() != reset_buffer_key(email).len());
    lemma_mail_writes_window(c, reset_code_key(email), reset_buffer_key(email), code, t, t2);
}

} // verus!
