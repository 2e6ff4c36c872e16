//! Listing and creating challenge instances.

pub mod instance_id;

use vstd::prelude::*;

use crate::model::ChallengeDetail;
use crate::traits::{fails_bad_request, fails_forbidden, fails_not_found, fails_too_many, WebError};
use crate::util::cluster::Env;
use crate::util::string_map::{
    entries_view, label_selector, lemma_lookup_append, lemma_lookup_single, lookup, selector,
};
use crate::util::text::{decimal, i64_to_string};

verus! {

/// Query of the instance listing.
pub struct GetInstanceRequest {
    pub id: Option<String>,
    pub user_id: Option<i64>,
    pub team_id: Option<i64>,
    pub game_id: Option<i64>,
    pub challenge_id: Option<i64>,
}

/// The instances that matched a listing.
pub struct ListInstancesResponse {
    pub items: Vec<Env>,
}

/// Whose instances a listing asks for.
pub enum InstanceScope {
    /// The instances a user started outside games.
    User(i64),
    /// The instances of a team in a game.
    Team { team_id: i64, game_id: i64 },
}

/// Whose instances a listing may show: a user only their own (`Forbidden("")`
/// for another user's), a team in a game (the caller's membership is checked
/// next); any other combination of the query is a `BadRequest("")`.
pub fn instance_scope(params: &GetInstanceRequest, operator_id: i64) -> (r: Result<InstanceScope, WebError>)
    ensures
        match (params.user_id, params.team_id, params.game_id) {
            (Some(u), None, None) => if u == operator_id {
                r == Ok::<InstanceScope, WebError>(InstanceScope::User(u))
            } else {
                fails_forbidden(r, Seq::<char>::empty())
            },
            (_, Some(t), Some(g)) => r == Ok::<InstanceScope, WebError>(
                InstanceScope::Team { team_id: t, game_id: g },
            ),
            _ => fails_bad_request(r, Seq::<char>::empty()),
        },
{
    match (params.user_id, params.team_id, params.game_id) {
        (Some(u), None, None) => {
            if operator_id != u {
                return Err(WebError::Forbidden(String::new()));
            }
            Ok(InstanceScope::User(u))
        },
        (_, Some(t), Some(g)) => Ok(InstanceScope::Team { team_id: t, game_id: g }),
        _ => Err(WebError::BadRequest(String::new())),
    }
}

/// A team's instances are listed only for its members: `Forbidden("")` when
/// the caller's team in that game is another one.
pub fn check_listed_team(own_team_id: i64, requested_team_id: i64) -> (r: Result<(), WebError>)
    ensures
        own_team_id == requested_team_id ==> r is Ok,
        own_team_id != requested_team_id ==> fails_forbidden(r, Seq::<char>::empty()),
{
    if own_team_id != requested_team_id {
        return Err(WebError::Forbidden(String::new()));
    }
    Ok(())
}

/// One label entry, present when `v` is.
pub open spec fn entry_if(k: Seq<char>, v: Option<Seq<char>>) -> Seq<(Seq<char>, Seq<char>)> {
    match v {
        Some(x) => seq![(k, x)],
        None => Seq::empty(),
    }
}

/// The labels a listing filters on, in key order (`cds/challenge_id`,
/// `cds/game_id`, `cds/instance_id`, `cds/team_id`, `cds/user_id`).
pub open spec fn instance_labels(scope: InstanceScope, id: Option<Seq<char>>, challenge_id: Option<int>) -> Seq<
    (Seq<char>, Seq<char>),
> {
    let (user, team, game) = match scope {
        InstanceScope::User(u) => (Some(decimal(u as int)), None, None),
        InstanceScope::Team { team_id, game_id } => (
            None,
            Some(decimal(team_id as int)),
            Some(decimal(game_id as int)),
        ),
    };
    entry_if("cds/challenge_id"@, match challenge_id { Some(c) => Some(decimal(c)), None => None })
        + entry_if("cds/game_id"@, game) + entry_if("cds/instance_id"@, id) + entry_if(
        "cds/team_id"@,
        team,
    ) + entry_if("cds/user_id"@, user)
}

/// A key is found in an optional entry exactly when the entry is there under
/// that key.
pub proof fn lemma_lookup_entry_if(key: Seq<char>, v: Option<Seq<char>>, k: Seq<char>)
    ensures
        lookup(entry_if(key, v), k) == (if key == k { v } else { None }),
{
    match v {
        Some(x) => lemma_lookup_single(key, x, k),
        None => {},
    }
}

/// The `cds/*` label keys differ from one another.
pub proof fn lemma_label_keys_distinct()
    ensures
        ({
            let ks = seq![
                "cds/challenge_id"@,
                "cds/game_id"@,
                "cds/instance_id"@,
                "cds/resource_id"@,
                "cds/team_id"@,
                "cds/user_id"@,
            ];
            forall|i: int, j: int| 0 <= i < j < ks.len() ==> ks[i] != ks[j]
        }),
{
    reveal_strlit("cds/challenge_id");
    reveal_strlit("cds/game_id");
    reveal_strlit("cds/instance_id");
    reveal_strlit("cds/resource_id");
    reveal_strlit("cds/team_id");
    reveal_strlit("cds/user_id");
    let ks = seq![
        "cds/challenge_id"@,
        "cds/game_id"@,
        "cds/instance_id"@,
        "cds/resource_id"@,
        "cds/team_id"@,
        "cds/user_id"@,
    ];
    assert forall|i: int, j: int| 0 <= i < j < ks.len() implies ks[i] != ks[j] by {
        if ks[i].len() == ks[j].len() {
            assert(ks[i][4] != ks[j][4]);
        }
    }
}

/// Looks a key up in five optional entries joined in order.
pub proof fn lemma_lookup_five(
    k: Seq<char>,
    k1: Seq<char>, v1: Option<Seq<char>>,
    k2: Seq<char>, v2: Option<Seq<char>>,
    k3: Seq<char>, v3: Option<Seq<char>>,
    k4: Seq<char>, v4: Option<Seq<char>>,
    k5: Seq<char>, v5: Option<Seq<char>>,
)
    ensures
        lookup(
            entry_if(k1, v1) + entry_if(k2, v2) + entry_if(k3, v3) + entry_if(k4, v4) + entry_if(k5, v5),
            k,
        ) == (if k1 == k && v1 is Some { v1 } else if k2 == k && v2 is Some { v2 } else if k3 == k
            && v3 is Some { v3 } else if k4 == k && v4 is Some { v4 } else if k5 == k { v5 } else {
            None
        }),
{
    let e1 = entry_if(k1, v1);
    let e2 = entry_if(k2, v2);
    let e3 = entry_if(k3, v3);
    let e4 = entry_if(k4, v4);
    let e5 = entry_if(k5, v5);
    lemma_lookup_append(e1 + e2 + e3 + e4, e5, k);
    lemma_lookup_append(e1 + e2 + e3, e4, k);
    lemma_lookup_append(e1 + e2, e3, k);
    lemma_lookup_append(e1, e2, k);
    lemma_lookup_entry_if(k1, v1, k);
    lemma_lookup_entry_if(k2, v2, k);
    lemma_lookup_entry_if(k3, v3, k);
    lemma_lookup_entry_if(k4, v4, k);
    lemma_lookup_entry_if(k5, v5, k);
}

/// What an instance listing filters on: the challenge when given, under
/// `cds/challenge_id`; the instance when given, under `cds/instance_id`; for a
/// user's listing that user under `cds/user_id` and neither team nor game; for
/// a team's listing the team under `cds/team_id` and the game under
/// `cds/game_id`, and no user.
pub proof fn lemma_instance_labels_fields(scope: InstanceScope, id: Option<Seq<char>>, challenge_id: Option<int>)
    ensures
        lookup(instance_labels(scope, id, challenge_id), "cds/challenge_id"@) == (match challenge_id {
            Some(c) => Some(decimal(c)),
            None => None,
        }),
        lookup(instance_labels(scope, id, challenge_id), "cds/instance_id"@) == id,
        lookup(instance_labels(scope, id, challenge_id), "cds/user_id"@) == (match scope {
            InstanceScope::User(u) => Some(decimal(u as int)),
            InstanceScope::Team { .. } => None,
        }),
        lookup(instance_labels(scope, id, challenge_id), "cds/team_id"@) == (match scope {
            InstanceScope::User(_) => None,
            InstanceScope::Team { team_id, .. } => Some(decimal(team_id as int)),
        }),
        lookup(instance_labels(scope, id, challenge_id), "cds/game_id"@) == (match scope {
            InstanceScope::User(_) => None,
            InstanceScope::Team { game_id, .. } => Some(decimal(game_id as int)),
        }),
{
    lemma_label_keys_distinct();
    let ks = seq![
        "cds/challenge_id"@,
        "cds/game_id"@,
        "cds/instance_id"@,
        "cds/resource_id"@,
        "cds/team_id"@,
        "cds/user_id"@,
    ];
    assert(ks[0] != ks[1] && ks[0] != ks[2] && ks[0] != ks[4] && ks[0] != ks[5]);
    assert(ks[1] != ks[2] && ks[1] != ks[4] && ks[1] != ks[5]);
    assert(ks[2] != ks[4] && ks[2] != ks[5] && ks[4] != ks[5]);
    let (user, team, game) = match scope {
        InstanceScope::User(u) => (Some(decimal(u as int)), None, None),
        InstanceScope::Team { team_id, game_id } => (
            None,
            Some(decimal(team_id as int)),
            Some(decimal(game_id as int)),
        ),
    };
    let c = match challenge_id { Some(c) => Some(decimal(c)), None => None };
    lemma_lookup_five("cds/challenge_id"@, "cds/challenge_id"@, c, "cds/game_id"@, game, "cds/instance_id"@, id, "cds/team_id"@, team, "cds/user_id"@, user);
    lemma_lookup_five("cds/game_id"@, "cds/challenge_id"@, c, "cds/game_id"@, game, "cds/instance_id"@, id, "cds/team_id"@, team, "cds/user_id"@, user);
    lemma_lookup_five("cds/instance_id"@, "cds/challenge_id"@, c, "cds/game_id"@, game, "cds/instance_id"@, id, "cds/team_id"@, team, "cds/user_id"@, user);
    lemma_lookup_five("cds/team_id"@, "cds/challenge_id"@, c, "cds/game_id"@, game, "cds/instance_id"@, id, "cds/team_id"@, team, "cds/user_id"@, user);
    lemma_lookup_five("cds/user_id"@, "cds/challenge_id"@, c, "cds/game_id"@, game, "cds/instance_id"@, id, "cds/team_id"@, team, "cds/user_id"@, user);
}

fn push_entry(v: &mut Vec<(String, String)>, k: &str, value: String)
    ensures
        entries_view(final(v)@) == entries_view(old(v)@) + seq![(k@, value@)],
{
    let ghost before = v@;
    v.push((String::from_str(k), value));
    assert(entries_view(v@) =~= entries_view(before) + seq![(k@, value@)]);
}

/// Builds the label selector of a listing.
pub fn instance_selector(scope: &InstanceScope, id: &Option<String>, challenge_id: Option<i64>) -> (s:
    String)
    ensures
        s@ == selector(
            instance_labels(
                *scope,
                match id { Some(x) => Some(x@), None => None },
                match challenge_id { Some(c) => Some(c as int), None => None },
            ),
        ),
{
    let mut v: Vec<(String, String)> = Vec::new();
    let ghost e0 = entries_view(v@);
    assert(e0 =~= Seq::<(Seq<char>, Seq<char>)>::empty());
    match challenge_id {
        Some(c) => push_entry(&mut v, "cds/challenge_id", i64_to_string(c)),
        None => {},
    }
    match scope {
        InstanceScope::Team { team_id: _, game_id } => push_entry(&mut v, "cds/game_id", i64_to_string(*game_id)),
        _ => {},
    }
    match id {
        Some(x) => push_entry(&mut v, "cds/instance_id", x.clone()),
        None => {},
    }
    match scope {
        InstanceScope::Team { team_id, game_id: _ } => push_entry(&mut v, "cds/team_id", i64_to_string(*team_id)),
        _ => {},
    }
    match scope {
        InstanceScope::User(u) => push_entry(&mut v, "cds/user_id", i64_to_string(*u)),
        _ => {},
    }
    let ghost want = instance_labels(
        *scope,
        match id { Some(x) => Some(x@), None => None },
        match challenge_id { Some(c) => Some(c as int), None => None },
    );
    assert(entries_view(v@) =~= want);
    label_selector(&v)
}

/// Body of an instance request.
pub struct CreateInstanceRequest {
    pub challenge_id: i64,
    pub team_id: Option<i64>,
    pub user_id: Option<i64>,
    pub game_id: Option<i64>,
}

/// An instance is started only for a challenge the caller may access
/// (`NotFound("challenge_not_found")` otherwise) that defines one
/// (`BadRequest("challenge_instance_invalid")` otherwise), with game and team
/// given together (`BadRequest("invalid")` otherwise); in a game the pair
/// `(game_id, team_id)` is returned.
pub fn check_instance_request(accessible: bool, challenge: &ChallengeDetail, body: &CreateInstanceRequest) -> (r:
    Result<Option<(i64, i64)>, WebError>)
    ensures
        !accessible ==> fails_not_found(r, "challenge_not_found"@),
        accessible && !challenge.has_instance ==> fails_bad_request(
            r,
            "challenge_instance_invalid"@,
        ),
        accessible && challenge.has_instance && body.game_id.is_some() != body.team_id.is_some()
            ==> fails_bad_request(r, "invalid"@),
        accessible && challenge.has_instance && body.game_id.is_some() == body.team_id.is_some()
            ==> r == Ok::<Option<(i64, i64)>, WebError>(
            match (body.game_id, body.team_id) {
                (Some(g), Some(t)) => Some((g, t)),
                _ => None,
            },
        ),
{
    if !accessible {
        return Err(WebError::NotFound(String::from_str("challenge_not_found")));
    }
    if !challenge.has_instance {
        return Err(WebError::BadRequest(String::from_str("challenge_instance_invalid")));
    }
    if body.game_id.is_some() != body.team_id.is_some() {
        return Err(WebError::BadRequest(String::from_str("invalid")));
    }
    match (body.game_id, body.team_id) {
        (Some(g), Some(t)) => Ok(Some((g, t))),
        _ => Ok(None),
    }
}

/// In a game only a member of the team may start its instance:
/// `Forbidden("team_not_found")` otherwise.
pub fn check_instance_member(in_team: bool) -> (r: Result<(), WebError>)
    ensures
        in_team ==> r is Ok,
        !in_team ==> fails_forbidden(r, "team_not_found"@),
{
    if !in_team {
        return Err(WebError::Forbidden(String::from_str("team_not_found")));
    }
    Ok(())
}

/// The selector of a team's instances in a game:
/// `cds/game_id={game_id},cds/team_id={team_id}`.
pub fn team_pods_selector(game_id: i64, team_id: i64) -> (s: String)
    ensures
        s@ == selector(seq![("cds/game_id"@, decimal(game_id as int)), ("cds/team_id"@, decimal(team_id as int))]),
{
    let mut v: Vec<(String, String)> = Vec::new();
    assert(entries_view(v@) =~= Seq::<(Seq<char>, Seq<char>)>::empty());
    push_entry(&mut v, "cds/game_id", i64_to_string(game_id));
    push_entry(&mut v, "cds/team_id", i64_to_string(team_id));
    assert(entries_view(v@) =~= seq![("cds/game_id"@, decimal(game_id as int)), ("cds/team_id"@, decimal(team_id as int))]);
    label_selector(&v)
}

/// The selector of a user's instances: `cds/user_id={user_id}`.
pub fn user_pods_selector(user_id: i64) -> (s: String)
    ensures
        s@ == selector(seq![("cds/user_id"@, decimal(user_id as int))]),
{
    let mut v: Vec<(String, String)> = Vec::new();
    assert(entries_view(v@) =~= Seq::<(Seq<char>, Seq<char>)>::empty());
    push_entry(&mut v, "cds/user_id", i64_to_string(user_id));
    assert(entries_view(v@) =~= seq![("cds/user_id"@, decimal(user_id as int))]);
    label_selector(&v)
}

/// A team may not start another instance once it runs as many as it has
/// members (or more): `TooManyRequests("too_many_team_pods")`.
pub fn check_team_pod_quota(member_count: u64, running: usize) -> (r: Result<(), WebError>)
    ensures
        running >= member_count ==> fails_too_many(r, "too_many_team_pods"@),
        running < member_count ==> r is Ok,
{
    if running as u64 >= member_count {
        return Err(WebError::TooManyRequests(String::from_str("too_many_team_pods")));
    }
    Ok(())
}

/// A user outside games may not start another instance while running one
/// (or more): `TooManyRequests("too_many_user_pods")`.
pub fn check_user_pod_quota(running: usize) -> (r: Result<(), WebError>)
    ensures
        running >= 1 ==> fails_too_many(r, "too_many_user_pods"@),
        running == 0 ==> r is Ok,
{
    if running >= 1 {
        return Err(WebError::TooManyRequests(String::from_str("too_many_user_pods")));
    }
    Ok(())
}

} // verus!
