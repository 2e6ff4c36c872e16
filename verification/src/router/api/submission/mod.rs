//! Listing and creating flag submissions.

pub mod checker;

use vstd::prelude::*;

use crate::model::{ChallengeDetail, Status};
use crate::traits::{fails_bad_request, fails_too_many, WebError};
use crate::util::text::{decimal, prefix_id};

verus! {

/// Query of the submission listing.
pub struct ListSubmissionsRequest {
    pub id: Option<i64>,
    pub user_id: Option<i64>,
    pub team_id: Option<Option<i64>>,
    pub game_id: Option<Option<i64>>,
    pub challenge_id: Option<i64>,
    pub status: Option<Status>,
    pub page: Option<u64>,
    pub size: Option<u64>,
    pub sorts: Option<String>,
}

/// The smaller of two numbers.
pub open spec fn min_u64(a: u64, b: u64) -> u64 {
    if a <= b { a } else { b }
}

/// The smaller of two numbers is at most each of them and is one of them.
pub proof fn lemma_min_u64(a: u64, b: u64)
    ensures
        min_u64(a, b) <= a,
        min_u64(a, b) <= b,
        min_u64(a, b) == a || min_u64(a, b) == b,
{
}

/// The page and page size of a listing: page 1 and `default_size` when not
/// given, the size capped at `max_size`.
pub fn page_and_size(page: Option<u64>, size: Option<u64>, default_size: u64, max_size: u64) -> (r: (
    u64,
    u64,
))
    ensures
        r.0 == (match page { Some(p) => p, None => 1 }),
        r.1 == min_u64(match size { Some(s) => s, None => default_size }, max_size),
{
    let page = match page {
        Some(p) => p,
        None => 1,
    };
    let size = match size {
        Some(s) => s,
        None => default_size,
    };
    let size = if size <= max_size { size } else { max_size };
    (page, size)
}

/// The listing shows the caller's own submissions: the query's filters, with
/// the author fixed to the caller whatever the query names.
pub fn own_submissions_query(params: ListSubmissionsRequest, operator_id: i64) -> (q: ListSubmissionsRequest)
    ensures
        q.user_id == Some(operator_id),
        q.id == params.id,
        q.team_id == params.team_id,
        q.game_id == params.game_id,
        q.challenge_id == params.challenge_id,
        q.status == params.status,
        q.page == params.page,
        q.size == params.size,
        q.sorts == params.sorts,
{
    ListSubmissionsRequest { user_id: Some(operator_id), ..params }
}

/// The page and size of the submission listing: at most 100 a page, 10 by
/// default.
pub fn list_submissions_page(params: &ListSubmissionsRequest) -> (r: (u64, u64))
    ensures
        r.0 == (match params.page { Some(p) => p, None => 1 }),
        r.1 == min_u64(match params.size { Some(s) => s, None => 10 }, 100),
{
    page_and_size(params.page, params.size, 10, 100)
}

/// Body of a submission.
pub struct CreateSubmissionRequest {
    pub content: String,
    pub team_id: Option<i64>,
    pub game_id: Option<i64>,
    pub challenge_id: i64,
}

/// The cache key counting a user's recent submissions:
/// `submission:user:{user_id}`.
pub open spec fn submission_rate_key_spec(user_id: int) -> Seq<char> {
    "submission:user:"@ + decimal(user_id)
}

/// Builds the cache key counting a user's recent submissions.
pub fn submission_rate_key(user_id: i64) -> (key: String)
    ensures
        key@ == submission_rate_key_spec(user_id as int),
{
    prefix_id("submission:user:", user_id)
}

/// How long the submission counter lives, in seconds.
pub const SUBMISSION_RATE_WINDOW: u64 = 60;

/// The most submissions the counter may already hold for another one to be
/// accepted.
pub const SUBMISSION_RATE_LIMIT: i32 = 10;

/// The counter a submission leaves behind, or `None` when it is refused: with
/// no counter it becomes 1, a counter above [`SUBMISSION_RATE_LIMIT`] refuses,
/// any other counter goes one higher.
pub open spec fn next_count(current: Option<i32>) -> Option<i32> {
    match current {
        None => Some(1i32),
        Some(l) => if l > SUBMISSION_RATE_LIMIT { None } else { Some((l + 1) as i32) },
    }
}

/// The rate limit on submissions: the counter to write back (with a lifetime
/// of [`SUBMISSION_RATE_WINDOW`] seconds), or `TooManyRequests("submission")`
/// when the submission is refused.
pub fn next_submission_count(current: Option<i32>) -> (r: Result<i32, WebError>)
    ensures
        match next_count(current) {
            Some(c) => r == Ok::<i32, WebError>(c),
            None => fails_too_many(r, "submission"@),
        },
{
    match current {
        None => Ok(1),
        Some(l) => {
            if l > SUBMISSION_RATE_LIMIT {
                Err(WebError::TooManyRequests(String::from_str("submission")))
            } else {
                Ok(l + 1)
            }
        },
    }
}

/// The counter after `n` submissions in one window, starting from none, or
/// `None` once one of them was refused.
pub open spec fn count_after(n: nat) -> Option<Option<i32>>
    decreases n,
{
    if n == 0 {
        Some(None)
    } else {
        match count_after((n - 1) as nat) {
            Some(c) => match next_count(c) {
                Some(c2) => Some(Some(c2)),
                None => None,
            },
            None => None,
        }
    }
}

/// Within one window of the counter, the first eleven submissions of a user
/// are accepted, each raising the counter by one, and the twelfth is refused.
pub proof fn lemma_submission_rate_window(n: nat)
    ensures
        1 <= n <= 11 ==> count_after(n) == Some(Some(n as i32)),
        n == 12 ==> count_after(n) is None,
    decreases n,
{
    reveal_with_fuel(count_after, 2);
    if n >= 2 && n <= 12 {
        lemma_submission_rate_window((n - 1) as nat);
    }
}

/// The check of a submission's scope once its challenge is known: game and
/// team go together (`BadRequest("invalid")` otherwise), a submission outside
/// a game needs a public challenge (`BadRequest("challenge_not_found")`), and
/// in a game the pair `(game_id, team_id)` is returned for the membership
/// checks that follow.
pub fn check_submission_scope(body: &CreateSubmissionRequest, challenge: &ChallengeDetail) -> (r:
    Result<Option<(i64, i64)>, WebError>)
    ensures
        body.game_id.is_some() != body.team_id.is_some() ==> fails_bad_request(r, "invalid"@),
        body.game_id.is_some() == body.team_id.is_some() && !challenge.public
            && body.game_id.is_none() ==> fails_bad_request(r, "challenge_not_found"@),
        body.game_id.is_some() == body.team_id.is_some() && (challenge.public
            || body.game_id.is_some()) ==> r == Ok::<Option<(i64, i64)>, WebError>(
            match (body.game_id, body.team_id) {
                (Some(g), Some(t)) => Some((g, t)),
                _ => None,
            },
        ),
{
    if body.game_id.is_some() != body.team_id.is_some() {
        return Err(WebError::BadRequest(String::from_str("invalid")));
    }
    if !challenge.public && (body.game_id.is_none() || body.team_id.is_none()) {
        return Err(WebError::BadRequest(String::from_str("challenge_not_found")));
    }
    match (body.game_id, body.team_id) {
        (Some(g), Some(t)) => Ok(Some((g, t))),
        _ => Ok(None),
    }
}

/// In a game the submitter must belong to the team, which must have passed
/// review: `BadRequest("team_not_found")` when the search for such a team
/// found none.
pub fn check_submission_team(matching_teams: u64) -> (r: Result<(), WebError>)
    ensures
        matching_teams == 0 ==> fails_bad_request(r, "team_not_found"@),
        matching_teams != 0 ==> r is Ok,
{
    if matching_teams == 0 {
        return Err(WebError::BadRequest(String::from_str("team_not_found")));
    }
    Ok(())
}

/// A submission to be stored.
pub struct NewSubmission {
    pub content: String,
    pub user_id: i64,
    pub team_id: Option<i64>,
    pub game_id: Option<i64>,
    pub challenge_id: i64,
    pub status: Status,
}

/// The stored submission: the body's content, scope and challenge, authored by
/// the operator, waiting for the checker.
pub fn new_submission(body: CreateSubmissionRequest, operator_id: i64) -> (s: NewSubmission)
    ensures
        s.content == body.content,
        s.user_id == operator_id,
        s.team_id == body.team_id,
        s.game_id == body.game_id,
        s.challenge_id == body.challenge_id,
        s.status == Status::Pending,
{
    NewSubmission {
        content: body.content,
        user_id: operator_id,
        team_id: body.team_id,
        game_id: body.game_id,
        challenge_id: body.challenge_id,
        status: Status::Pending,
    }
}

} // verus!
