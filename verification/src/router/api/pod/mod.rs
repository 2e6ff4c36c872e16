//! Challenge pods in the envelope-style API.

pub mod pod_id;

use vstd::prelude::*;

use crate::model::ChallengeDetail;
use crate::router::api::instance::{entry_if, lemma_label_keys_distinct, lemma_lookup_five};
use crate::traits::{fails_bad_request, WebError};
use crate::util::cluster::{uuid_text, uuid_to_string, value_or_empty};
use crate::util::string_map::{entries_view, label_selector, lookup, selector, StringMap};
use crate::util::text::{decimal, i64_to_string};

verus! {

/// Query of the pod listing.
pub struct GetRequest {
    pub id: Option<String>,
    pub user_id: Option<i64>,
    pub team_id: Option<i64>,
    pub game_id: Option<i64>,
    /// The challenge's UUID as a 128-bit number.
    pub challenge_id: Option<u128>,
}

/// What the listing reports of a pod: its labels and ports as text.
pub struct Pod {
    pub id: String,
    pub user_id: String,
    pub team_id: String,
    pub game_id: String,
    pub challenge_id: String,
    pub ports: String,
}

/// The labels a pod listing filters on, in key order.
pub open spec fn pod_labels(params: GetRequest) -> Seq<(Seq<char>, Seq<char>)> {
    entry_if(
        "cds/challenge_id"@,
        match params.challenge_id { Some(c) => Some(uuid_text(c)), None => None },
    ) + entry_if(
        "cds/game_id"@,
        match params.game_id { Some(g) => Some(decimal(g as int)), None => None },
    ) + entry_if("cds/resource_id"@, match params.id { Some(x) => Some(x@), None => None })
        + entry_if(
        "cds/team_id"@,
        match params.team_id { Some(t) => Some(decimal(t as int)), None => None },
    ) + entry_if(
        "cds/user_id"@,
        match params.user_id { Some(u) => Some(decimal(u as int)), None => None },
    )
}

/// Every given field of a pod listing's query is filtered on under its
/// `cds/*` label, and no other: the challenge's UUID text under
/// `cds/challenge_id`, the game, team and user in decimal under `cds/game_id`,
/// `cds/team_id` and `cds/user_id`, the pod under `cds/resource_id`.
pub proof fn lemma_pod_labels_fields(params: GetRequest)
    ensures
        lookup(pod_labels(params), "cds/challenge_id"@) == (match params.challenge_id {
            Some(c) => Some(uuid_text(c)),
            None => None,
        }),
        lookup(pod_labels(params), "cds/game_id"@) == (match params.game_id {
            Some(g) => Some(decimal(g as int)),
            None => None,
        }),
        lookup(pod_labels(params), "cds/resource_id"@) == (match params.id {
            Some(x) => Some(x@),
            None => None,
        }),
        lookup(pod_labels(params), "cds/team_id"@) == (match params.team_id {
            Some(t) => Some(decimal(t as int)),
            None => None,
        }),
        lookup(pod_labels(params), "cds/user_id"@) == (match params.user_id {
            Some(u) => Some(decimal(u as int)),
            None => None,
        }),
{
    lemma_label_keys_distinct();
    let ks = seq![
        "cds/challenge_id"@,
        "cds/game_id"@,
        "cds/instance_id"@,
        "cds/resource_id"@,
        "cds/team_id"@,
        "cds/user_id"@,
    ];
    assert(ks[0] != ks[1] && ks[0] != ks[3] && ks[0] != ks[4] && ks[0] != ks[5]);
    assert(ks[1] != ks[3] && ks[1] != ks[4] && ks[1] != ks[5]);
    assert(ks[3] != ks[4] && ks[3] != ks[5] && ks[4] != ks[5]);
    let c = match params.challenge_id { Some(c) => Some(uuid_text(c)), None => None };
    let g = match params.game_id { Some(g) => Some(decimal(g as int)), None => None };
    let r = match params.id { Some(x) => Some(x@), None => None };
    let t = match params.team_id { Some(t) => Some(decimal(t as int)), None => None };
    let u = match params.user_id { Some(u) => Some(decimal(u as int)), None => None };
    lemma_lookup_five("cds/challenge_id"@, "cds/challenge_id"@, c, "cds/game_id"@, g, "cds/resource_id"@, r, "cds/team_id"@, t, "cds/user_id"@, u);
    lemma_lookup_five("cds/game_id"@, "cds/challenge_id"@, c, "cds/game_id"@, g, "cds/resource_id"@, r, "cds/team_id"@, t, "cds/user_id"@, u);
    lemma_lookup_five("cds/resource_id"@, "cds/challenge_id"@, c, "cds/game_id"@, g, "cds/resource_id"@, r, "cds/team_id"@, t, "cds/user_id"@, u);
    lemma_lookup_five("cds/team_id"@, "cds/challenge_id"@, c, "cds/game_id"@, g, "cds/resource_id"@, r, "cds/team_id"@, t, "cds/user_id"@, u);
    lemma_lookup_five("cds/user_id"@, "cds/challenge_id"@, c, "cds/game_id"@, g, "cds/resource_id"@, r, "cds/team_id"@, t, "cds/user_id"@, u);
}

fn push_pair(v: &mut Vec<(String, String)>, k: &str, value: String)
    ensures
        entries_view(final(v)@) == entries_view(old(v)@) + seq![(k@, value@)],
{
    let ghost before = v@;
    v.push((String::from_str(k), value));
    assert(entries_view(v@) =~= entries_view(before) + seq![(k@, value@)]);
}

/// The label selector of a pod listing: each given parameter under its
/// `cds/*` label, in key order.
pub fn pod_selector(params: &GetRequest) -> (s: String)
    ensures
        s@ == selector(pod_labels(*params)),
{
    let mut v: Vec<(String, String)> = Vec::new();
    assert(entries_view(v@) =~= Seq::<(Seq<char>, Seq<char>)>::empty());
    match params.challenge_id {
        Some(c) => push_pair(&mut v, "cds/challenge_id", uuid_to_string(c)),
        None => {},
    }
    match params.game_id {
        Some(g) => push_pair(&mut v, "cds/game_id", i64_to_string(g)),
        None => {},
    }
    match &params.id {
        Some(x) => push_pair(&mut v, "cds/resource_id", x.clone()),
        None => {},
    }
    match params.team_id {
        Some(t) => push_pair(&mut v, "cds/team_id", i64_to_string(t)),
        None => {},
    }
    match params.user_id {
        Some(u) => push_pair(&mut v, "cds/user_id", i64_to_string(u)),
        None => {},
    }
    assert(entries_view(v@) =~= pod_labels(*params));
    label_selector(&v)
}

/// What the listing reports of a pod: its `cds/*` labels and its `cds/ports`
/// annotation, each empty when missing.
pub fn pod_summary(labels: &StringMap, annotations: &StringMap) -> (p: Pod)
    ensures
        p.id@ == value_or_empty(labels.view(), "cds/resource_id"@),
        p.user_id@ == value_or_empty(labels.view(), "cds/user_id"@),
        p.team_id@ == value_or_empty(labels.view(), "cds/team_id"@),
        p.game_id@ == value_or_empty(labels.view(), "cds/game_id"@),
        p.challenge_id@ == value_or_empty(labels.view(), "cds/challenge_id"@),
        p.ports@ == value_or_empty(annotations.view(), "cds/ports"@),
{
    Pod {
        id: labels.get_or_empty("cds/resource_id"),
        user_id: labels.get_or_empty("cds/user_id"),
        team_id: labels.get_or_empty("cds/team_id"),
        game_id: labels.get_or_empty("cds/game_id"),
        challenge_id: labels.get_or_empty("cds/challenge_id"),
        ports: annotations.get_or_empty("cds/ports"),
    }
}

/// Body of a pod request.
pub struct CreateRequest {
    pub challenge_id: u128,
    pub team_id: Option<i64>,
    pub user_id: Option<i64>,
    pub game_id: Option<i64>,
}

/// A pod is started only for an existing challenge
/// (`BadRequest("challenge_not_found")`) that has a flag (`BadRequest("no_flag")`)
/// and an environment (`BadRequest("challenge_env_invalid")`), with game and
/// team given together (`BadRequest("invalid")`); in a game the pair
/// `(game_id, team_id)` is returned.
pub fn check_create(found: Option<ChallengeDetail>, body: &CreateRequest) -> (r: Result<
    Option<(i64, i64)>,
    WebError,
>)
    ensures
        match found {
            None => fails_bad_request(r, "challenge_not_found"@),
            Some(c) => if !c.has_flag {
                fails_bad_request(r, "no_flag"@)
            } else if !c.has_instance {
                fails_bad_request(r, "challenge_env_invalid"@)
            } else if body.game_id.is_some() != body.team_id.is_some() {
                fails_bad_request(r, "invalid"@)
            } else {
                r == Ok::<Option<(i64, i64)>, WebError>(
                    match (body.game_id, body.team_id) {
                        (Some(g), Some(t)) => Some((g, t)),
                        _ => None,
                    },
                )
            },
        },
{
    let c = match found {
        None => return Err(WebError::BadRequest(String::from_str("challenge_not_found"))),
        Some(c) => c,
    };
    if !c.has_flag {
        return Err(WebError::BadRequest(String::from_str("no_flag")));
    }
    if !c.has_instance {
        return Err(WebError::BadRequest(String::from_str("challenge_env_invalid")));
    }
    if body.game_id.is_some() != body.team_id.is_some() {
        return Err(WebError::BadRequest(String::from_str("invalid")));
    }
    match (body.game_id, body.team_id) {
        (Some(g), Some(t)) => Ok(Some((g, t))),
        _ => Ok(None),
    }
}

/// In a game the team must take part in it (`BadRequest("game_team_not_found")`)
/// and the challenge must belong to it (`BadRequest("game_challenge_not_found")`).
pub fn check_create_in_game(team_in_game: bool, challenge_in_game: bool) -> (r: Result<(), WebError>)
    ensures
        !team_in_game ==> fails_bad_request(r, "game_team_not_found"@),
        team_in_game && !challenge_in_game ==> fails_bad_request(r, "game_challenge_not_found"@),
        team_in_game && challenge_in_game ==> r is Ok,
{
    if !team_in_game {
        return Err(WebError::BadRequest(String::from_str("game_team_not_found")));
    }
    if !challenge_in_game {
        return Err(WebError::BadRequest(String::from_str("game_challenge_not_found")));
    }
    Ok(())
}

/// The environment a stop request tears down: the pod's `cds/resource_id`
/// label (empty when missing).
pub fn stop_target(labels: &StringMap) -> (id: String)
    ensures
        id@ == value_or_empty(labels.view(), "cds/resource_id"@),
{
    labels.get_or_empty("cds/resource_id")
}

} // verus!
