//! The caller's e-mail addresses and their verification by mailed code.

use vstd::prelude::*;

use crate::model::Email;
use crate::traits::{fails_bad_request, fails_forbidden, WebError};
use crate::util::cache::{
    cache_after_take, cache_after_writes, cache_lookup, found_text, writes_view, CacheRead,
    CacheValue, CacheWrite,
};
use crate::util::email::{extract_title, html_title};
use crate::util::text::{format_str, lowercase, replace_all, replace_spec, to_lowercase};
use crate::util::token::{random_token, url_safe};
use crate::util::validate::{email_valid, validate_email};

verus! {

/// Body of a new address.
pub struct UserAddEmailRequest {
    pub email: String,
}

impl UserAddEmailRequest {
    /// The field rule of a new address: it is an e-mail address.
    pub fn validate(&self) -> (r: bool)
        ensures
            r == email_valid(self.email@),
    {
        validate_email(self.email.as_str())
    }
}

/// Body of a verification.
pub struct EmailVerifyRequest {
    pub code: String,
}

/// The address an e-mail route names, in lower case.
pub fn normalize_email(email: &str) -> (e: String)
    ensures
        e@ == lowercase(email@),
{
    to_lowercase(email)
}

/// Mail is sent only while the platform has it switched on:
/// `BadRequest("email_disabled")` otherwise.
pub fn check_email_enabled(enabled: bool) -> (r: Result<(), WebError>)
    ensures
        enabled ==> r is Ok,
        !enabled ==> fails_bad_request(r, "email_disabled"@),
{
    if !enabled {
        return Err(WebError::BadRequest(String::from_str("email_disabled")));
    }
    Ok(())
}

/// An address is verified only by its owner and only once: a missing address
/// is `BadRequest("email_not_found")`, another user's `Forbidden("email_not_found")`,
/// a verified one `BadRequest("email_already_verified")`.
pub fn check_unverified_email(found: Option<Email>, operator_id: i64) -> (r: Result<Email, WebError>)
    ensures
        match found {
            None => fails_bad_request(r, "email_not_found"@),
            Some(e) => if e.user_id != operator_id {
                fails_forbidden(r, "email_not_found"@)
            } else if e.verified {
                fails_bad_request(r, "email_already_verified"@)
            } else {
                r == Ok::<Email, WebError>(e)
            },
        },
{
    match found {
        None => Err(WebError::BadRequest(String::from_str("email_not_found"))),
        Some(e) => {
            if e.user_id != operator_id {
                return Err(WebError::Forbidden(String::from_str("email_not_found")));
            }
            if e.verified {
                return Err(WebError::BadRequest(String::from_str("email_already_verified")));
            }
            Ok(e)
        },
    }
}

/// The cache key of an address's verification code: `mailbox:{email}:code`.
pub open spec fn mailbox_code_key(email: Seq<char>) -> Seq<char> {
    "mailbox:"@ + email + ":code"@
}

/// The cache key that marks a recent mail to an address:
/// `mailbox:{email}:buffer`.
pub open spec fn mailbox_buffer_key(email: Seq<char>) -> Seq<char> {
    "mailbox:"@ + email + ":buffer"@
}

/// Builds the cache key of an address's verification code.
pub fn email_code_key(email: &str) -> (k: String)
    ensures
        k@ == mailbox_code_key(email@),
{
    format_str("mailbox:", email, ":code")
}

/// Builds the cache key that marks a recent mail to an address.
pub fn email_buffer_key(email: &str) -> (k: String)
    ensures
        k@ == mailbox_buffer_key(email@),
{
    format_str("mailbox:", email, ":buffer")
}

/// Whether a submitted code is the stored one.
pub open spec fn code_accepted(stored: Option<Seq<char>>, submitted: Seq<char>) -> bool {
    stored == Some(submitted)
}

/// A code is accepted only while one is stored (`BadRequest("email_code_expired")`
/// once it has expired) and only when it is that one
/// (`BadRequest("email_code_incorrect")`).
pub fn check_email_code(stored: Option<String>, submitted: &String) -> (r: Result<(), WebError>)
    ensures
        (r is Ok) == code_accepted(match stored { Some(s) => Some(s@), None => None }, submitted@),
        stored is None ==> fails_bad_request(r, "email_code_expired"@),
        match stored {
            Some(s) => s@ != submitted@ ==> fails_bad_request(r, "email_code_incorrect"@),
            None => true,
        },
{
    match stored {
        None => Err(WebError::BadRequest(String::from_str("email_code_expired"))),
        Some(s) => {
            if s != *submitted {
                return Err(WebError::BadRequest(String::from_str("email_code_incorrect")));
            }
            Ok(())
        },
    }
}

/// The stored code as the model holds it.
pub open spec fn stored_view(stored: Option<String>) -> Option<Seq<char>> {
    match stored {
        Some(s) => Some(s@),
        None => None,
    }
}

/// A submitted code checked against the one stored under `key`: refused as
/// [`check_email_code`] refuses it; accepted, the answer is the read that
/// takes the code out of the cache under the same key, so that a code serves
/// once.
pub fn accept_code(key: String, stored: Option<String>, submitted: &String) -> (r: Result<CacheRead, WebError>)
    ensures
        (r is Ok) == code_accepted(stored_view(stored), submitted@),
        stored is None ==> fails_bad_request(r, "email_code_expired"@),
        match stored {
            Some(s) => s@ != submitted@ ==> fails_bad_request(r, "email_code_incorrect"@),
            None => true,
        },
        r is Ok ==> (r matches Ok(CacheRead::Take(k)) && k@ == key@),
{
    match check_email_code(stored, submitted) {
        Ok(()) => Ok(CacheRead::Take(key)),
        Err(e) => Err(e),
    }
}

/// Once an accepted code has been taken out under its key, nothing is found
/// there any more: every later check of a code under that key, the same code
/// included, finds none and is refused as `BadRequest("email_code_expired")`.
pub proof fn lemma_code_single_use(
    c: Map<Seq<char>, (Option<Seq<char>>, int)>,
    key: Seq<char>,
    code: Seq<char>,
    t: int,
)
    ensures
        found_text(cache_lookup(cache_after_take(c, key), key, t)) is None,
        !code_accepted(found_text(cache_lookup(cache_after_take(c, key), key, t)), code),
{
}

/// Mail to an address is sent at most once a minute:
/// `BadRequest("email_send_too_frequently")` while the mark of the last one
/// lives.
pub fn check_send_interval(recently_sent: bool) -> (r: Result<(), WebError>)
    ensures
        !recently_sent ==> r is Ok,
        recently_sent ==> fails_bad_request(r, "email_send_too_frequently"@),
{
    if recently_sent {
        return Err(WebError::BadRequest(String::from_str("email_send_too_frequently")));
    }
    Ok(())
}

/// How long a mailed code stays valid, in seconds.
pub const EMAIL_CODE_TTL: u64 = 3600;

/// How long the mark of a sent mail lives, in seconds.
pub const EMAIL_BUFFER_TTL: u64 = 60;

/// A fresh verification code: 21 URL-safe characters.
pub fn new_email_code() -> (c: String)
    ensures
        c@.len() == 21,
        forall|i: int| 0 <= i < c@.len() ==> url_safe(#[trigger] c@[i]),
{
    random_token(21)
}

/// The subject of a mail from a template: the template's title, else
/// `fallback`.
pub open spec fn mail_subject(template: Seq<char>, fallback: Seq<char>) -> Seq<char> {
    match html_title(template) {
        Some(t) => t,
        None => fallback,
    }
}

/// The body of a verification mail: the template with `%CODE%` replaced by the
/// code, then `%USER%` by the user's name.
pub open spec fn verification_body(template: Seq<char>, code: Seq<char>, user: Seq<char>) -> Seq<char> {
    replace_spec(replace_spec(template, "%CODE%"@, code), "%USER%"@, user)
}

/// A mail to be queued.
pub struct MailPayload {
    pub name: String,
    pub email: String,
    pub subject: String,
    pub body: String,
}

/// The verification mail for an address: to the user's name and the address,
/// titled by the template (`Verify Your Email` when it has no title), with
/// the code and the user's name put into the template.
pub fn verification_mail(template: &str, code: &str, user_name: &str, email: &str) -> (m: MailPayload)
    ensures
        m.name@ == user_name@,
        m.email@ == email@,
        m.subject@ == mail_subject(template@, "Verify Your Email"@),
        m.body@ == verification_body(template@, code@, user_name@),
{
    proof {
        reveal_strlit("%CODE%");
        reveal_strlit("%USER%");
    }
    let subject = match extract_title(template) {
        Some(t) => t,
        None => String::from_str("Verify Your Email"),
    };
    let with_code = replace_all(template, "%CODE%", code);
    let body = replace_all(with_code.as_str(), "%USER%", user_name);
    MailPayload {
        name: String::from_str(user_name),
        email: String::from_str(email),
        subject,
        body,
    }
}

/// The code a verification mail carries is accepted by the verification (which
/// reads it back under the same key), any other text is refused, and nothing
/// is accepted once the code has expired.
pub proof fn lemma_mailed_code_verifies(code: Seq<char>, other: Seq<char>)
    ensures
        code_accepted(Some(code), code),
        other != code ==> !code_accepted(Some(code), other),
        !code_accepted(None, code),
{
}

/// The writes a sent mail leaves, in order: the code under `code_key` for
/// [`EMAIL_CODE_TTL`] seconds, then the mark of a recent mail under
/// `buffer_key` for [`EMAIL_BUFFER_TTL`] seconds.
pub open spec fn mail_writes(code_key: Seq<char>, buffer_key: Seq<char>, code: Seq<char>) -> Seq<
    (Seq<char>, Option<Seq<char>>, int),
> {
    seq![(code_key, Some(code), EMAIL_CODE_TTL as int), (buffer_key, None, EMAIL_BUFFER_TTL as int)]
}

/// Builds the writes a sent mail leaves under the given keys.
pub fn mail_cache_writes(code_key: String, buffer_key: String, code: &str) -> (w: Vec<CacheWrite>)
    ensures
        writes_view(w@) == mail_writes(code_key@, buffer_key@, code@),
{
    let ghost (ck, bk) = (code_key@, buffer_key@);
    let mut w: Vec<CacheWrite> = Vec::new();
    w.push(CacheWrite { key: code_key, value: CacheValue::Text(String::from_str(code)), ttl: EMAIL_CODE_TTL });
    w.push(CacheWrite { key: buffer_key, value: CacheValue::Mark, ttl: EMAIL_BUFFER_TTL });
    assert(writes_view(w@) =~= mail_writes(ck, bk, code@));
    w
}

/// The writes a verification mail to an address leaves: its code under
/// `mailbox:{email}:code` for an hour, then the mark under
/// `mailbox:{email}:buffer` for a minute.
pub fn verification_writes(email: &str, code: &str) -> (w: Vec<CacheWrite>)
    ensures
        writes_view(w@) == mail_writes(mailbox_code_key(email@), mailbox_buffer_key(email@), code@),
{
    mail_cache_writes(email_code_key(email), email_buffer_key(email), code)
}

/// After the writes of a sent mail, made at time `t` under two different keys,
/// a read of the buffer key finds the mark for the next [`EMAIL_BUFFER_TTL`]
/// seconds, and a read of the code key finds the code for the next
/// [`EMAIL_CODE_TTL`] seconds.
pub proof fn lemma_mail_writes_window(
    c: Map<Seq<char>, (Option<Seq<char>>, int)>,
    code_key: Seq<char>,
    buffer_key: Seq<char>,
    code: Seq<char>,
    t: int,
    t2: int,
)
    requires
        code_key != buffer_key,
    ensures
        t <= t2 < t + EMAIL_BUFFER_TTL ==> cache_lookup(
            cache_after_writes(c, mail_writes(code_key, buffer_key, code), t),
            buffer_key,
            t2,
        ) is Some,
        t <= t2 < t + EMAIL_CODE_TTL ==> found_text(
            cache_lookup(cache_after_writes(c, mail_writes(code_key, buffer_key, code), t), code_key, t2),
        ) == Some(code),
{
    let ws = mail_writes(code_key, buffer_key, code);
    assert(ws.drop_last().drop_last() =~= Seq::<(Seq<char>, Option<Seq<char>>, int)>::empty());
    reveal_with_fuel(cache_after_writes, 3);
}

/// The two keys of an address's mail differ.
proof fn lemma_mailbox_keys_differ(email: Seq<char>)
    ensures
        mailbox_code_key(email) != mailbox_buffer_key(email),
{
    reveal_strlit("mailbox:");
    reveal_strlit(":code");
    reveal_strlit(":buffer");
    assert(mailbox_code_key(email).len() != mailbox_buffer_key(email).len());
}

/// Once a verification mail to an address is sent (its writes made at time
/// `t`), every further request to send one within the next minute finds the
/// mark of the recent mail and is refused as too frequent, and the mailed code
/// is accepted by the verification for the next hour.
pub proof fn lemma_verification_mail_window(
    c: Map<Seq<char>, (Option<Seq<char>>, int)>,
    email: Seq<char>,
    code: Seq<char>,
    t: int,
    t2: int,
)
    ensures
        t <= t2 < t + EMAIL_BUFFER_TTL ==> cache_lookup(
            cache_after_writes(c, mail_writes(mailbox_code_key(email), mailbox_buffer_key(email), code), t),
            mailbox_buffer_key(email),
            t2,
        ) is Some,
        t <= t2 < t + EMAIL_CODE_TTL ==> code_accepted(
            found_text(
                cache_lookup(
                    cache_after_writes(
                        c,
                        mail_writes(mailbox_code_key(email), mailbox_buffer_key(email), code),
                        t,
                    ),
                    mailbox_code_key(email),
                    t2,
                ),
            ),
            code,
        ),
{
    lemma_mailbox_keys_differ(email);
    lemma_mail_writes_window(c, mailbox_code_key(email), mailbox_buffer_key(email), code, t, t2);
}

} // verus!
