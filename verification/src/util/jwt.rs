//! Signed session tokens (JWT) and the secret they are signed with.

use vstd::prelude::*;

verus! {

/// The claims of a token: the user and the expiry (seconds since the epoch).
pub struct Claims {
    pub id: i64,
    pub exp: usize,
}

/// The token `jsonwebtoken::encode` makes with the default header (HS256) for
/// the claims `{"id": id, "exp": exp}` and a secret.
pub uninterp spec fn jwt_hs256(id: int, exp: int, secret: Seq<char>) -> Seq<char>;

/// Signs claims with `jsonwebtoken::encode` under the default header (HS256)
/// and an HMAC key made from the secret's bytes; the claims are serialized
/// with `id` then `exp`, as their struct declares them. The contract claims
/// only that the token is that function's result on these arguments (HMAC
/// signing of serializable claims does not fail).
#[verifier::external_body]
fn encode_claims(claims: &Claims, secret: &str) -> (token: String)
    ensures
        token@ == jwt_hs256(claims.id as int, claims.exp as int, secret@),
{
    let mut map = serde_json::Map::new();
    map.insert("id".to_string(), serde_json::Value::from(claims.id));
    map.insert("exp".to_string(), serde_json::Value::from(claims.exp));
    let key = jsonwebtoken::EncodingKey::from_secret(secret.as_bytes());
    jsonwebtoken::encode(&jsonwebtoken::Header::default(), &serde_json::Value::Object(map), &key).unwrap()
}

/// The claims of a user's token expiring at `expires_at`, the expiry kept as
/// `as usize` keeps it.
pub fn jwt_claims(user_id: i64, expires_at: i64) -> (c: Claims)
    ensures
        c.id == user_id,
        c.exp == expires_at as usize,
{
    Claims { id: user_id, exp: expires_at as usize }
}

/// When a token made at `now` (seconds since the epoch) expires: `minutes`
/// later. The span is a `chrono` duration, which holds at most `i64::MAX`
/// milliseconds, and the sum must be a time; outside that the clock
/// arithmetic panics, which `requires` leaves out.
pub fn token_expiry(now: i64, minutes: i64) -> (exp: i64)
    requires
        -(i64::MAX / 1000) <= minutes * 60 <= i64::MAX / 1000,
        i64::MIN <= now + minutes * 60 <= i64::MAX,
    ensures
        exp == now + minutes * 60,
{
    now + minutes * 60
}

/// The signed token of a user, expiring at `expires_at` (now plus the
/// configured minutes).
pub fn generate_jwt_token(user_id: i64, expires_at: i64, secret: &str) -> (token: String)
    ensures
        token@ == jwt_hs256(user_id as int, (expires_at as usize) as int, secret@),
{
    let claims = jwt_claims(user_id, expires_at);
    encode_claims(&claims, secret)
}

/// The pattern of the placeholders a configured secret may hold: `[uuid]`,
/// any case of each letter.
pub const UUID_PLACEHOLDER: &'static str = "\\[([Uu][Uu][Ii][Dd])]";

/// Whether `regex::Regex::new` accepts a pattern.
pub uninterp spec fn regex_compiles(pattern: Seq<char>) -> bool;

/// What `regex::Regex::replace_all` gives for a text, with the regex that
/// `regex::Regex::new` compiles from `pattern`, every match replaced by
/// `replacement`.
pub uninterp spec fn regex_replaced(pattern: Seq<char>, text: Seq<char>, replacement: Seq<char>) -> Seq<char>;

/// Compiles `pattern` with `regex::Regex::new` and replaces every match in
/// `text` with `Regex::replace_all`. The contract claims only that the result
/// is present exactly when the pattern compiles, and is then `replace_all`'s
/// result on these arguments.
#[verifier::external_body]
fn regex_replace_all(pattern: &str, text: &str, replacement: &str) -> (r: Option<String>)
    ensures
        r is Some <==> regex_compiles(pattern@),
        r matches Some(s) ==> s@ == regex_replaced(pattern@, text@, replacement@),
{
    match regex::Regex::new(pattern) {
        Ok(re) => Some(re.replace_all(text, replacement).to_string()),
        Err(_) => None,
    }
}

/// Whether a text is a UUID in the simple format: 32 lower-case hexadecimal
/// digits.
pub open spec fn simple_uuid(u: Seq<char>) -> bool {
    u.len() == 32 && forall|i: int| 0 <= i < u.len() ==> ('0' <= #[trigger] u[i] <= '9' || 'a' <= u[i] <= 'f')
}

/// A fresh random UUID (`Uuid::new_v4`) in the simple format. It is random, so
/// nothing names it; the contract claims what the `uuid` documentation gives
/// of every outcome: 32 lower-case hexadecimal digits.
#[verifier::external_body]
fn new_uuid_simple() -> (u: String)
    ensures
        simple_uuid(u@),
{
    uuid::Uuid::new_v4().simple().to_string()
}

/// The configured secret with each `[uuid]` placeholder (the pattern
/// [`UUID_PLACEHOLDER`]) replaced by `uuid`; `None` only where the pattern
/// does not compile.
pub fn expand_jwt_secret(template: &str, uuid: &str) -> (s: Option<String>)
    ensures
        match s {
            Some(t) => regex_compiles(UUID_PLACEHOLDER@) && t@ == regex_replaced(
                UUID_PLACEHOLDER@,
                template@,
                uuid@,
            ),
            None => !regex_compiles(UUID_PLACEHOLDER@),
        },
{
    regex_replace_all(UUID_PLACEHOLDER, template, uuid)
}

/// The secret tokens are signed with: the configured one with each `[uuid]`
/// placeholder replaced by a fresh random UUID (drawn once per process and
/// then kept in the cache); `None` only where the pattern does not compile.
pub fn jwt_secret(template: &str) -> (s: Option<String>)
    ensures
        match s {
            Some(t) => regex_compiles(UUID_PLACEHOLDER@) && exists|u: Seq<char>|
                simple_uuid(u) && t@ == regex_replaced(UUID_PLACEHOLDER@, template@, u),
            None => !regex_compiles(UUID_PLACEHOLDER@),
        },
{
    let u = new_uuid_simple();
    expand_jwt_secret(template, u.as_str())
}

} // verus!
