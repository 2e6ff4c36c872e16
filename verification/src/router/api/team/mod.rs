//! Teams in the envelope-style API, where a team exists outside games.

pub mod team_id;

use vstd::prelude::*;

use crate::model::{Group, User};
use crate::traits::{fails_forbidden, WebError};
use crate::util::crypto::{argon2_verifies, hash_password, phc_parses};
use crate::util::text::{replace_all, replace_spec, split_char, split_on};

verus! {

/// Query of the team listing.
pub struct GetTeamRequest {
    pub id: Option<i64>,
    pub name: Option<String>,
    pub email: Option<String>,
    pub user_id: Option<i64>,
    pub page: Option<u64>,
    pub size: Option<u64>,
    pub sorts: Option<String>,
}

/// One ordering of a listing: a field, descending or ascending.
pub struct SortKey {
    pub field: String,
    pub descending: bool,
}

/// The field a sort term names: the term without any `-`.
pub open spec fn sort_field(term: Seq<char>) -> Seq<char> {
    replace_spec(term, "-"@, Seq::empty())
}

/// Whether a sort term asks for descending order: it starts with `-`.
pub open spec fn sort_descending(term: Seq<char>) -> bool {
    term.len() > 0 && term[0] == '-'
}

/// Reads the `sorts` parameter: each comma-separated term, in order, names a
/// field (the term without `-`) and is descending when it starts with `-`
/// (terms that name no field of a team are skipped where the query is built).
pub fn parse_sorts(sorts: &str) -> (keys: Vec<SortKey>)
    ensures
        keys@.len() == split_on(sorts@, ',').len(),
        forall|i: int| 0 <= i < keys@.len() ==> (#[trigger] keys@[i]).field@ == sort_field(
            split_on(sorts@, ',')[i],
        ) && keys@[i].descending == sort_descending(split_on(sorts@, ',')[i]),
{
    let terms = split_char(sorts, ',');
    let ghost views = terms@.map_values(|p: String| p@);
    let mut keys: Vec<SortKey> = Vec::new();
    let mut i: usize = 0;
    while i < terms.len()
        invariant
            i <= terms@.len(),
            views == terms@.map_values(|p: String| p@),
            views == split_on(sorts@, ','),
            keys@.len() == i,
            forall|j: int| 0 <= j < i ==> (#[trigger] keys@[j]).field@ == sort_field(views[j])
                && keys@[j].descending == sort_descending(views[j]),
        decreases terms@.len() - i,
    {
        proof {
            reveal_strlit("-");
            reveal_strlit("");
        }
        let term = terms[i].as_str();
        assert(views[i as int] == term@);
        let field = replace_all(term, "-", "");
        let descending = term.unicode_len() > 0 && term.get_char(0) == '-';
        assert(""@ =~= Seq::<char>::empty());
        assert(field@ == sort_field(views[i as int]));
        assert(descending == sort_descending(views[i as int]));
        let ghost old_keys = keys@;
        keys.push(SortKey { field, descending });
        assert(forall|j: int| 0 <= j < i ==> keys@[j] == old_keys[j]);
        i = i + 1;
    }
    keys
}

/// Whether the listing's window can be computed: page 0 (which would
/// underflow) and an offset beyond `u64` are left out.
pub open spec fn page_window_ok(page: Option<u64>, size: Option<u64>) -> bool {
    match (page, size) {
        (Some(p), Some(s)) => p >= 1 && (p - 1) * s <= u64::MAX,
        _ => true,
    }
}

/// Whether the listing's window can be computed.
pub fn page_window_fits(page: Option<u64>, size: Option<u64>) -> (r: bool)
    ensures
        r == page_window_ok(page, size),
{
    match (page, size) {
        (Some(p), Some(s)) => {
            if p == 0 {
                return false;
            }
            let q = (p - 1) as u128;
            let s2 = s as u128;
            assert(q * s2 <= 0xFFFF_FFFF_FFFF_FFFF * 0xFFFF_FFFF_FFFF_FFFF) by (nonlinear_arith)
                requires
                    q <= 0xFFFF_FFFF_FFFF_FFFF,
                    s2 <= 0xFFFF_FFFF_FFFF_FFFF,
            ;
            let w = q * s2;
            w <= u64::MAX as u128
        },
        _ => true,
    }
}

/// The offset and limit of the listing: only with both a page and a size, the
/// pages before it skipped.
pub fn page_window(page: Option<u64>, size: Option<u64>) -> (r: Option<(u64, u64)>)
    requires
        page_window_ok(page, size),
    ensures
        match (page, size) {
            (Some(p), Some(s)) => r == Some((((p - 1) * s) as u64, s)),
            _ => r is None,
        },
{
    match (page, size) {
        (Some(p), Some(s)) => Some(((p - 1) * s, s)),
        _ => None,
    }
}

/// Body of an administrator's new team.
pub struct CreateTeamRequest {
    pub name: String,
    pub email: String,
    pub password: String,
    pub slogan: Option<String>,
    pub description: Option<String>,
}

/// Body of a user's new team.
pub struct TeamRegisterRequest {
    pub name: String,
    pub email: String,
    pub password: String,
}

/// Only administrators create teams here: `Forbidden("")` otherwise.
pub fn check_create_team(operator: &User) -> (r: Result<(), WebError>)
    ensures
        operator.group == Group::Admin ==> r is Ok,
        operator.group != Group::Admin ==> fails_forbidden(r, Seq::<char>::empty()),
{
    if operator.group != Group::Admin {
        return Err(WebError::Forbidden(String::new()));
    }
    Ok(())
}

/// The hash a team's password is stored as; it verifies the password.
pub fn team_password_hash(password: String) -> (h: String)
    requires
        vstd::utf8::encode_utf8(password@).len() <= 0xFFFF_FFFF,
    ensures
        phc_parses(h@),
        argon2_verifies(password@, h@),
{
    hash_password(password)
}

} // verus!
