//! The invitation token of the caller's team.

use vstd::prelude::*;

use crate::util::text::{decimal, format_id};
use crate::util::token::{random_token, url_safe};

verus! {

/// The invitation token of a team, if it has one.
pub struct InviteTokenResponse {
    pub token: Option<String>,
}

/// The cache key of a team's invitation token: `team:{team_id}:invite`.
pub open spec fn invite_key_spec(team_id: int) -> Seq<char> {
    "team:"@ + decimal(team_id) + ":invite"@
}

/// Builds the cache key of a team's invitation token.
pub fn invite_key(team_id: i64) -> (k: String)
    ensures
        k@ == invite_key_spec(team_id as int),
{
    format_id("team:", team_id, ":invite")
}

/// How long an invitation token lives, in seconds.
pub const INVITE_TTL: u64 = 3600;

/// A fresh invitation token: 16 URL-safe characters.
pub fn new_invite_token() -> (t: String)
    ensures
        t@.len() == 16,
        forall|i: int| 0 <= i < t@.len() ==> url_safe(#[trigger] t@[i]),
{
    random_token(16)
}

} // verus!
