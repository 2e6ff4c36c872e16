//! Binding, signing in and registering through one identity provider.

pub mod avatar;

use vstd::prelude::*;

use crate::model::{Email, Group, Idp, User};
use crate::traits::{fails_bad_request, fails_conflict, fails_forbidden, fails_not_found, WebError};
use crate::util::cache::{
    cache_after_take, cache_after_write, cache_lookup, found_text, write_view, CacheRead, CacheValue,
    CacheWrite,
};
use crate::util::string_map::{entries_view, unique_keys, StringMap};
use crate::util::text::{
    decimal, format_id, i64_to_string, is_digit, lemma_nat_decimal_digits, lemma_parse_i64_of_decimal,
    nat_decimal, parse_i64, parse_i64_spec, prefix_str,
};
use crate::util::token::{random_token, url_safe};
use crate::util::validate::{email_valid, length_within, validate_email, validate_length};

verus! {

/// A provider is used only while it exists and is enabled:
/// `NotFound("idp_not_found")` otherwise.
pub fn enabled_idp(found: Option<Idp>) -> (r: Result<Idp, WebError>)
    ensures
        match found {
            Some(i) => if i.enabled {
                r == Ok::<Idp, WebError>(i)
            } else {
                fails_not_found(r, "idp_not_found"@)
            },
            None => fails_not_found(r, "idp_not_found"@),
        },
{
    match found {
        None => Err(WebError::NotFound(String::from_str("idp_not_found"))),
        Some(i) => {
            if !i.enabled {
                return Err(WebError::NotFound(String::from_str("idp_not_found")));
            }
            Ok(i)
        },
    }
}

/// A provider script that fails to load is the client's problem: its message
/// is answered as a `BadRequest`.
pub fn idp_preload_failure(message: String) -> (e: WebError)
    ensures
        e == WebError::BadRequest(message),
{
    WebError::BadRequest(message)
}

/// A binding is refused when the identity is already bound to an account
/// (`Conflict("user_idp_already_bound")`) or the caller already has one for
/// this provider (`Conflict("idp_already_bound")`).
pub fn check_bind(identity_bound: bool, user_bound: bool) -> (r: Result<(), WebError>)
    ensures
        identity_bound ==> fails_conflict(r, "user_idp_already_bound"@),
        !identity_bound && user_bound ==> fails_conflict(r, "idp_already_bound"@),
        !identity_bound && !user_bound ==> r is Ok,
{
    if identity_bound {
        return Err(WebError::Conflict(String::from_str("user_idp_already_bound")));
    }
    if user_bound {
        return Err(WebError::Conflict(String::from_str("idp_already_bound")));
    }
    Ok(())
}

/// The name of a group in lower case, as its `Debug` name lowered.
pub open spec fn group_name(g: Group) -> Seq<char> {
    match g {
        Group::Banned => "banned"@,
        Group::Guest => "guest"@,
        Group::User => "user"@,
        Group::Admin => "admin"@,
    }
}

fn group_str(g: Group) -> (s: &'static str)
    ensures
        s@ == group_name(g),
{
    match g {
        Group::Banned => "banned",
        Group::Guest => "guest",
        Group::User => "user",
        Group::Admin => "admin",
    }
}

/// The first verified address among a user's addresses.
pub open spec fn first_verified(emails: Seq<Email>) -> Option<Seq<char>>
    decreases emails.len(),
{
    if emails.len() == 0 {
        None
    } else if emails[0].verified {
        Some(emails[0].email@)
    } else {
        first_verified(emails.drop_first())
    }
}

/// The address picked for a provider's script is that of the first verified
/// address of the user: it is verified, and every address before it is not;
/// when no address is verified, none is picked.
pub proof fn lemma_first_verified(emails: Seq<Email>)
    ensures
        first_verified(emails) is None <==> forall|i: int| 0 <= i < emails.len() ==> !(#[trigger] emails[i]).verified,
        first_verified(emails) matches Some(e) ==> exists|i: int| 0 <= i < emails.len() && (#[trigger] emails[i]).verified
            && emails[i].email@ == e && forall|j: int| 0 <= j < i ==> !(#[trigger] emails[j]).verified,
    decreases emails.len(),
{
    if emails.len() > 0 {
        let rest = emails.drop_first();
        lemma_first_verified(rest);
        assert forall|i: int| 0 < i < emails.len() implies emails[i] == rest[i - 1] by {}
        if emails[0].verified {
            assert(emails[0].verified && emails[0].email@ == first_verified(emails)->Some_0);
        } else if first_verified(rest) is Some {
            let e = first_verified(rest)->Some_0;
            let k = choose|k: int| 0 <= k < rest.len() && (#[trigger] rest[k]).verified
                && rest[k].email@ == e && forall|j: int| 0 <= j < k ==> !(#[trigger] rest[j]).verified;
            assert(emails[k + 1] == rest[k]);
            assert forall|j: int| 0 <= j < k + 1 implies !(#[trigger] emails[j]).verified by {
                if j > 0 {
                    assert(emails[j] == rest[j - 1]);
                }
            }
        } else {
            assert forall|i: int| 0 <= i < emails.len() implies !(#[trigger] emails[i]).verified by {
                if i > 0 {
                    assert(emails[i] == rest[i - 1]);
                }
            }
        }
    }
}

/// What a provider's script is told of an account: `id`, `username`, `name`,
/// `group`, and `email` when the account has a verified address.
pub open spec fn user_entries(user: User, emails: Seq<Email>) -> Seq<(Seq<char>, Seq<char>)> {
    let base = seq![
        ("id"@, decimal(user.id as int)),
        ("username"@, user.username@),
        ("name"@, user.name@),
        ("group"@, group_name(user.group)),
    ];
    match first_verified(emails) {
        Some(e) => base.push(("email"@, e)),
        None => base,
    }
}

/// The keys of what a provider's script is told of an account are distinct,
/// with or without the address.
proof fn lemma_user_entry_keys(v0: Seq<char>, v1: Seq<char>, v2: Seq<char>, v3: Seq<char>, v4: Seq<char>)
    ensures
        unique_keys(seq![("id"@, v0), ("username"@, v1), ("name"@, v2), ("group"@, v3)]),
        unique_keys(seq![("id"@, v0), ("username"@, v1), ("name"@, v2), ("group"@, v3), ("email"@, v4)]),
{
    reveal_strlit("id");
    reveal_strlit("username");
    reveal_strlit("name");
    reveal_strlit("group");
    reveal_strlit("email");
    assert("group"@[0] != "email"@[0]);
    let s = seq![("id"@, v0), ("username"@, v1), ("name"@, v2), ("group"@, v3), ("email"@, v4)];
    assert forall|i: int, j: int| 0 <= i < j < s.len() implies s[i].0 != s[j].0 by {
        if i == 3 && j == 4 {
            assert(s[i].0[0] != s[j].0[0]);
        } else {
            assert(s[i].0.len() != s[j].0.len());
        }
    }
    let t = seq![("id"@, v0), ("username"@, v1), ("name"@, v2), ("group"@, v3)];
    assert forall|i: int, j: int| 0 <= i < j < t.len() implies t[i].0 != t[j].0 by {
        assert(t[i] == s[i] && t[j] == s[j]);
    }
}

/// Builds what a provider's script is told of an account.
pub fn user_map(user: &User, emails: &Vec<Email>) -> (m: StringMap)
    ensures
        m.view() == user_entries(*user, emails@),
{
    let mut entries: Vec<(String, String)> = Vec::new();
    entries.push((String::from_str("id"), i64_to_string(user.id)));
    entries.push((String::from_str("username"), user.username.clone()));
    entries.push((String::from_str("name"), user.name.clone()));
    entries.push((String::from_str("group"), String::from_str(group_str(user.group))));
    let ghost base = seq![
        ("id"@, decimal(user.id as int)),
        ("username"@, user.username@),
        ("name"@, user.name@),
        ("group"@, group_name(user.group)),
    ];
    assert(entries_view(entries@) =~= base);
    let mut i: usize = 0;
    assert(emails@.subrange(0, emails@.len() as int) =~= emails@);
    while i < emails.len()
        invariant
            i <= emails@.len(),
            entries_view(entries@) == base,
            base == seq![
                ("id"@, decimal(user.id as int)),
                ("username"@, user.username@),
                ("name"@, user.name@),
                ("group"@, group_name(user.group)),
            ],
            first_verified(emails@) == first_verified(emails@.subrange(i as int, emails@.len() as int)),
            forall|j: int| 0 <= j < i ==> !(#[trigger] emails@[j]).verified,
        decreases emails@.len() - i,
    {
        let ghost rest = emails@.subrange(i as int, emails@.len() as int);
        assert(rest[0] == emails@[i as int]);
        if emails[i].verified {
            assert(first_verified(rest) == Some(emails@[i as int].email@));
            let ghost before = entries@;
            entries.push((String::from_str("email"), emails[i].email.clone()));
            assert(entries_view(entries@) =~= entries_view(before).push(("email"@, emails@[i as int].email@)));
            proof {
                lemma_user_entry_keys(
                    decimal(user.id as int),
                    user.username@,
                    user.name@,
                    group_name(user.group),
                    emails@[i as int].email@,
                );
            }
            let m = StringMap::new(entries);
            assert(user_entries(*user, emails@) =~= m.view());
            return m;
        }
        assert(rest.drop_first() =~= emails@.subrange(i + 1, emails@.len() as int));
        i = i + 1;
    }
    assert(emails@.subrange(emails@.len() as int, emails@.len() as int) =~= Seq::<Email>::empty());
    proof {
        lemma_user_entry_keys(
            decimal(user.id as int),
            user.username@,
            user.name@,
            group_name(user.group),
            Seq::empty(),
        );
    }
    let m = StringMap::new(entries);
    assert(m.view() =~= user_entries(*user, emails@));
    m
}

/// An identity waiting for its account: the one-time token to register with,
/// the provider, and what the provider reported.
pub struct PendingIdentity {
    pub token: String,
    pub idp_id: i64,
    pub data: StringMap,
}

/// Body of a registration through a provider.
pub struct IdpRegisterRequest {
    pub token: String,
    pub username: String,
    pub name: String,
    pub email: String,
    pub password: String,
}

impl IdpRegisterRequest {
    /// The field rules of a registration through a provider: a username of 3
    /// to 20 characters and an e-mail address.
    pub fn validate(&self) -> (r: bool)
        ensures
            r == (length_within(self.username@, 3, 20) && email_valid(self.email@)),
    {
        validate_length(self.username.as_str(), 3, 20) && validate_email(self.email.as_str())
    }
}

/// The cache key of a pending identity: `idp_pending:{token}`.
pub open spec fn pending_key_spec(token: Seq<char>) -> Seq<char> {
    "idp_pending:"@ + token
}

/// Builds the cache key of a pending identity.
pub fn pending_key(token: &str) -> (k: String)
    ensures
        k@ == pending_key_spec(token@),
{
    prefix_str("idp_pending:", token)
}

/// How long a pending identity waits for its registration, in seconds.
pub const PENDING_TTL: u64 = 600;

/// A fresh registration token: 21 URL-safe characters.
pub fn new_pending_token() -> (t: String)
    ensures
        t@.len() == 21,
        forall|i: int| 0 <= i < t@.len() ==> url_safe(#[trigger] t@[i]),
{
    random_token(21)
}

/// The account of a known identity, or `NotFound("user_not_found")`.
pub fn identity_user(found: Option<User>) -> (r: Result<User, WebError>)
    ensures
        match found {
            Some(u) => r == Ok::<User, WebError>(u),
            None => fails_not_found(r, "user_not_found"@),
        },
{
    match found {
        Some(u) => Ok(u),
        None => Err(WebError::NotFound(String::from_str("user_not_found"))),
    }
}

/// The identity as stored after the sign-in, or `NotFound("user_idp_not_found")`.
pub fn reloaded_identity<T>(found: Option<T>) -> (r: Result<T, WebError>)
    ensures
        match found {
            Some(i) => r == Ok::<T, WebError>(i),
            None => fails_not_found(r, "user_idp_not_found"@),
        },
{
    match found {
        Some(i) => Ok(i),
        None => Err(WebError::NotFound(String::from_str("user_idp_not_found"))),
    }
}

/// The record of a pending identity, as stored under its token: the
/// provider's id in decimal, a `:`, then the identity's key.
pub open spec fn pending_record_spec(idp_id: int, auth_key: Seq<char>) -> Seq<char> {
    decimal(idp_id) + ":"@ + auth_key
}

/// Builds the record of a pending identity.
pub fn encode_pending_record(idp_id: i64, auth_key: &str) -> (s: String)
    ensures
        s@ == pending_record_spec(idp_id as int, auth_key@),
{
    let mut s = format_id("", idp_id, ":");
    proof {
        reveal_strlit("");
    }
    assert(""@ + decimal(idp_id as int) + ":"@ =~= decimal(idp_id as int) + ":"@);
    s.append(auth_key);
    s
}

/// Whether `i` is the position of the first `:` in `s`.
pub open spec fn first_colon(s: Seq<char>, i: int) -> bool {
    &&& 0 <= i < s.len()
    &&& s[i] == ':'
    &&& forall|j: int| 0 <= j < i ==> s[j] != ':'
}

/// What a stored record holds: the text before its first `:` read as an
/// `i64` (the provider), and the text after it (the identity's key); `None`
/// for a text without `:` or whose first part is no `i64`.
pub open spec fn decode_pending_record_spec(s: Seq<char>) -> Option<(int, Seq<char>)> {
    if exists|i: int| first_colon(s, i) {
        let i = choose|i: int| first_colon(s, i);
        match parse_i64_spec(s.take(i)) {
            Some(v) => Some((v, s.skip(i + 1))),
            None => None,
        }
    } else {
        None
    }
}

proof fn lemma_first_colon_unique(s: Seq<char>, i: int, k: int)
    requires
        first_colon(s, i),
        first_colon(s, k),
    ensures
        i == k,
{
    if i < k {
        assert(s[i] != ':');
    } else if k < i {
        assert(s[k] != ':');
    }
}

/// Reads a stored record back.
pub fn decode_pending_record(text: &str) -> (r: Option<(i64, String)>)
    ensures
        match r {
            Some((v, k)) => decode_pending_record_spec(text@) == Some((v as int, k@)),
            None => decode_pending_record_spec(text@) is None,
        },
{
    let n = text.unicode_len();
    let mut i: usize = 0;
    while i < n
        invariant
            i <= n,
            n == text@.len(),
            forall|j: int| 0 <= j < i ==> text@[j] != ':',
        decreases n - i,
    {
        if text.get_char(i) == ':' {
            proof {
                assert(first_colon(text@, i as int));
                let k = choose|k: int| first_colon(text@, k);
                lemma_first_colon_unique(text@, i as int, k);
            }
            let head = text.substring_char(0, i);
            let rest = text.substring_char(i + 1, n);
            assert(head@ =~= text@.take(i as int));
            assert(rest@ =~= text@.skip(i + 1));
            return match parse_i64(head) {
                Some(v) => Some((v, String::from_str(rest))),
                None => None,
            };
        }
        i = i + 1;
    }
    assert forall|k: int| !first_colon(text@, k) by {
        if 0 <= k < text@.len() {
            assert(text@[k] != ':');
        }
    }
    None
}

/// A record read back gives the provider and the identity's key it was
/// built from, whatever the key holds.
pub proof fn lemma_pending_record_round_trip(idp_id: i64, auth_key: Seq<char>)
    ensures
        decode_pending_record_spec(pending_record_spec(idp_id as int, auth_key)) == Some(
            (idp_id as int, auth_key),
        ),
{
    reveal_strlit(":");
    let d = decimal(idp_id as int);
    let s = pending_record_spec(idp_id as int, auth_key);
    let m: nat = if idp_id < 0 { (-idp_id) as nat } else { idp_id as nat };
    lemma_nat_decimal_digits(m);
    assert forall|j: int| 0 <= j < d.len() implies d[j] != ':' by {
        if idp_id < 0 {
            if j > 0 {
                assert(d[j] == nat_decimal(m)[j - 1]);
                assert(is_digit(nat_decimal(m)[j - 1]));
            }
        } else {
            assert(is_digit(nat_decimal(m)[j]));
        }
    }
    let i = d.len() as int;
    assert(s[i] == ':');
    assert forall|j: int| 0 <= j < i implies s[j] != ':' by {
        assert(s[j] == d[j]);
    }
    assert(first_colon(s, i));
    let k = choose|k: int| first_colon(s, k);
    lemma_first_colon_unique(s, i, k);
    assert(s.take(i) =~= d);
    assert(s.skip(i + 1) =~= auth_key);
    lemma_parse_i64_of_decimal(idp_id);
}

/// The provider key of a pending identity: a missing or expired token is
/// `BadRequest("invalid_or_expired_token")`, a record that does not read back
/// is `BadRequest("invalid_token_payload")`.
pub fn pending_auth_key(pending: Option<String>) -> (r: Result<String, WebError>)
    ensures
        match pending {
            None => fails_bad_request(r, "invalid_or_expired_token"@),
            Some(t) => match decode_pending_record_spec(t@) {
                None => fails_bad_request(r, "invalid_token_payload"@),
                Some(p) => r matches Ok(k) && k@ == p.1,
            },
        },
{
    match pending {
        None => Err(WebError::BadRequest(String::from_str("invalid_or_expired_token"))),
        Some(t) => match decode_pending_record(t.as_str()) {
            None => Err(WebError::BadRequest(String::from_str("invalid_token_payload"))),
            Some((_, k)) => Ok(k),
        },
    }
}

/// A registration through a provider is refused when the identity got bound
/// meanwhile: `Conflict("user_idp_already_bound")`.
pub fn check_identity_unbound(bound: bool) -> (r: Result<(), WebError>)
    ensures
        !bound ==> r is Ok,
        bound ==> fails_conflict(r, "user_idp_already_bound"@),
{
    if bound {
        return Err(WebError::Conflict(String::from_str("user_idp_already_bound")));
    }
    Ok(())
}

/// An identity that is bound to no account can only register, and signing up
/// through a provider needs the platform's registration switched on:
/// `Forbidden("registration_disabled")` otherwise (both when a sign-in finds
/// no account and when the registration comes).
pub fn check_provider_registration(enabled: bool) -> (r: Result<(), WebError>)
    ensures
        enabled ==> r is Ok,
        !enabled ==> fails_forbidden(r, "registration_disabled"@),
{
    if !enabled {
        return Err(WebError::Forbidden(String::from_str("registration_disabled")));
    }
    Ok(())
}

/// How a registration reads its pending identity: it takes the record out of
/// the cache under the token's key, whatever comes of the registration, so a
/// token serves at most one.
pub fn pending_read(token: &str) -> (r: CacheRead)
    ensures
        r matches CacheRead::Take(k) && k@ == pending_key_spec(token@),
{
    CacheRead::Take(pending_key(token))
}

/// The write a sign-in leaves for an identity bound to no account: its record
/// (the provider and the identity's key) under the token's key for
/// [`PENDING_TTL`] seconds.
pub fn pending_write(token: &str, idp_id: i64, auth_key: &str) -> (w: CacheWrite)
    ensures
        write_view(w) == (
            pending_key_spec(token@),
            Some(pending_record_spec(idp_id as int, auth_key@)),
            PENDING_TTL as int,
        ),
{
    CacheWrite {
        key: pending_key(token),
        value: CacheValue::Text(encode_pending_record(idp_id, auth_key)),
        ttl: PENDING_TTL,
    }
}

/// What a sign-in through a provider does once the identity has been looked
/// up.
pub enum IdpLoginStep {
    /// The identity is bound: the account with this id signs in.
    SignIn(i64),
    /// The identity is bound to no account: `write` is stored and `pending`
    /// is answered, for the caller to register with.
    Register { pending: PendingIdentity, write: CacheWrite },
}

/// The step of a sign-in through provider `idp_id` for the identity with key
/// `auth_key` and reported `data`, bound to the account `bound_user` if any:
/// a bound identity signs its account in; an unbound one, while registration
/// is switched on, gets a fresh token under which its record waits
/// [`PENDING_TTL`] seconds, and is `Forbidden("registration_disabled")`
/// otherwise.
pub fn login_step(
    idp_id: i64,
    auth_key: &str,
    data: StringMap,
    bound_user: Option<i64>,
    registration_enabled: bool,
) -> (r: Result<IdpLoginStep, WebError>)
    ensures
        bound_user matches Some(u) ==> r == Ok::<IdpLoginStep, WebError>(IdpLoginStep::SignIn(u)),
        bound_user is None && !registration_enabled ==> fails_forbidden(r, "registration_disabled"@),
        bound_user is None && registration_enabled ==> (r matches Ok(
            IdpLoginStep::Register { pending, write },
        ) && pending.idp_id == idp_id && pending.data == data && pending.token@.len() == 21 && (
        forall|i: int| 0 <= i < pending.token@.len() ==> url_safe(#[trigger] pending.token@[i]))
            && write_view(write) == (
            pending_key_spec(pending.token@),
            Some(pending_record_spec(idp_id as int, auth_key@)),
            PENDING_TTL as int,
        )),
{
    match bound_user {
        Some(u) => Ok(IdpLoginStep::SignIn(u)),
        None => {
            if let Err(e) = check_provider_registration(registration_enabled) {
                return Err(e);
            }
            let token = new_pending_token();
            let write = pending_write(token.as_str(), idp_id, auth_key);
            Ok(IdpLoginStep::Register { pending: PendingIdentity { token, idp_id, data }, write })
        },
    }
}

/// A sign-in that leaves an identity pending (its write made at `t1`) and a
/// registration with the answered token at `t2`, within [`PENDING_TTL`]
/// seconds: the registration takes the record out under the token's key,
/// finds it, and reads back the identity's key, which it binds to the new
/// account.
pub proof fn lemma_login_then_register(
    c: Map<Seq<char>, (Option<Seq<char>>, int)>,
    token: Seq<char>,
    idp_id: i64,
    auth_key: Seq<char>,
    t1: int,
    t2: int,
)
    requires
        t1 <= t2 < t1 + PENDING_TTL,
    ensures
        ({
            let after = cache_after_write(
                c,
                (pending_key_spec(token), Some(pending_record_spec(idp_id as int, auth_key)), PENDING_TTL as int),
                t1,
            );
            match found_text(cache_lookup(after, pending_key_spec(token), t2)) {
                Some(t) => decode_pending_record_spec(t) == Some((idp_id as int, auth_key)),
                None => false,
            }
        }),
{
    lemma_pending_token_single_use(c, token, pending_record_spec(idp_id as int, auth_key), t1, t2);
    lemma_pending_record_round_trip(idp_id, auth_key);
}

/// A pending identity written at time `t1` is found under its token for the
/// next [`PENDING_TTL`] seconds and not after, and once a registration has
/// taken it out nothing is found under the token again: a later registration
/// with the same token finds none and is refused as
/// `BadRequest("invalid_or_expired_token")`.
pub proof fn lemma_pending_token_single_use(
    c: Map<Seq<char>, (Option<Seq<char>>, int)>,
    token: Seq<char>,
    record: Seq<char>,
    t1: int,
    t2: int,
)
    ensures
        t1 <= t2 < t1 + PENDING_TTL ==> found_text(
            cache_lookup(
                cache_after_write(c, (pending_key_spec(token), Some(record), PENDING_TTL as int), t1),
                pending_key_spec(token),
                t2,
            ),
        ) == Some(record),
        t2 >= t1 + PENDING_TTL ==> cache_lookup(
            cache_after_write(c, (pending_key_spec(token), Some(record), PENDING_TTL as int), t1),
            pending_key_spec(token),
            t2,
        ) is None,
        cache_lookup(cache_after_take(c, pending_key_spec(token)), pending_key_spec(token), t2) is None,
{
}

} // verus!
