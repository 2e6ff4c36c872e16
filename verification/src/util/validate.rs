//! The field rules request bodies are checked against when they are read:
//! lengths counted in characters, and e-mail addresses as `validator` reads
//! them.

use validator::ValidateEmail;
use vstd::prelude::*;

verus! {

/// Whether `validator` accepts a text as an e-mail address (the HTML5 form:
/// a local part and a domain or address literal, each within its length).
pub uninterp spec fn email_valid(text: Seq<char>) -> bool;

/// Checks an address with `validator`'s `ValidateEmail::validate_email`; the
/// contract claims only that the result is that function's verdict on this
/// text.
#[verifier::external_body]
pub(crate) fn validate_email(text: &str) -> (r: bool)
    ensures
        r == email_valid(text@),
{
    text.validate_email()
}

/// Whether a text has between `min` and `max` characters, as `validator`'s
/// `length(min, max)` counts them.
pub open spec fn length_within(text: Seq<char>, min: nat, max: nat) -> bool {
    min <= text.len() <= max
}

/// Checks that a text has between `min` and `max` characters.
pub fn validate_length(text: &str, min: usize, max: usize) -> (r: bool)
    ensures
        r == length_within(text@, min as nat, max as nat),
{
    let n = text.unicode_len();
    min <= n && n <= max
}

/// Whether an optional address is acceptable: a missing one always is.
pub open spec fn optional_email_valid(text: Option<Seq<char>>) -> bool {
    match text {
        Some(t) => email_valid(t),
        None => true,
    }
}

/// Checks an optional address (a missing one is accepted).
pub fn validate_optional_email(text: &Option<String>) -> (r: bool)
    ensures
        r == optional_email_valid(match text { Some(t) => Some(t@), None => None }),
{
    match text {
        Some(t) => validate_email(t.as_str()),
        None => true,
    }
}

} // verus!
