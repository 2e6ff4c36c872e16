//! The checker of submissions: it judges each pending submission and assigns
//! it a status. The work alternates lookups and decisions, so the decisions
//! stand here as a state machine that the worker loop drives: it performs each
//! action and hands back what came of it.

use vstd::prelude::*;

use crate::model::{Status, Submission};
use crate::util::text::{parse_i64, parse_i64_spec};

verus! {

/// The team that answers for a submission in a game, else its author.
pub open spec fn operator_of(s: Submission) -> i64 {
    match s.team_id {
        Some(t) => t,
        None => s.user_id,
    }
}

/// The checker is asked about a submission in a team's name when the
/// submission has a team, and in its author's name otherwise.
pub proof fn lemma_operator_of(s: Submission)
    ensures
        s.team_id matches Some(t) ==> operator_of(s) == t,
        s.team_id is None ==> operator_of(s) == s.user_id,
{
}

/// Whether `other` is a correct submission to the same challenge, in the same
/// game when `s` belongs to one (the records the checker compares against).
pub open spec fn is_prior_solve(s: Submission, other: Submission) -> bool {
    &&& other.challenge_id == s.challenge_id
    &&& (s.game_id.is_some() ==> other.game_id == s.game_id)
    &&& other.status == Status::Correct
}

/// Whether a prior solve was made by the same user, or in a game by the same
/// team.
pub open spec fn is_same_solver(s: Submission, other: Submission) -> bool {
    other.user_id == s.user_id || (s.game_id.is_some() && other.team_id == s.team_id)
}

/// The status a checked submission gets: `Incorrect` for a wrong flag,
/// `Invalid` for a right flag when the same solver has already solved the
/// challenge, `Correct` otherwise.
pub open spec fn judgement(s: Submission, correct: bool, existing: Seq<Submission>) -> Status {
    if !correct {
        Status::Incorrect
    } else if exists|i: int| 0 <= i < existing.len() && is_prior_solve(s, existing[i])
        && is_same_solver(s, existing[i]) {
        Status::Invalid
    } else {
        Status::Correct
    }
}

/// How a checked submission is judged. A wrong flag is `Incorrect`. A right
/// flag is `Invalid` when the same user has already solved the challenge (in
/// the same game, for a submission in a game), or, in a game, when the same
/// team has. Otherwise it is `Correct`: outside games only the user's own
/// earlier solve counts, whoever else solved the challenge before, and in a
/// game only solves of the same game by the same user or team count.
pub proof fn lemma_judgement_rules(s: Submission, correct: bool, existing: Seq<Submission>)
    ensures
        !correct ==> judgement(s, correct, existing) == Status::Incorrect,
        correct ==> judgement(s, correct, existing) != Status::Incorrect,
        correct && (exists|i: int|
            0 <= i < existing.len() && (#[trigger] existing[i]).challenge_id == s.challenge_id
                && existing[i].status == Status::Correct && existing[i].user_id == s.user_id
                && (s.game_id is Some ==> existing[i].game_id == s.game_id))
            ==> judgement(s, correct, existing) == Status::Invalid,
        correct && s.game_id is Some && (exists|i: int|
            0 <= i < existing.len() && (#[trigger] existing[i]).challenge_id == s.challenge_id
                && existing[i].status == Status::Correct && existing[i].game_id == s.game_id
                && existing[i].team_id == s.team_id)
            ==> judgement(s, correct, existing) == Status::Invalid,
        correct && s.game_id is None && (forall|i: int|
            0 <= i < existing.len() && (#[trigger] existing[i]).challenge_id == s.challenge_id
                && existing[i].status == Status::Correct ==> existing[i].user_id != s.user_id)
            ==> judgement(s, correct, existing) == Status::Correct,
        correct && s.game_id is Some && (forall|i: int|
            0 <= i < existing.len() && (#[trigger] existing[i]).challenge_id == s.challenge_id
                && existing[i].status == Status::Correct && existing[i].game_id == s.game_id
                ==> existing[i].user_id != s.user_id && existing[i].team_id != s.team_id)
            ==> judgement(s, correct, existing) == Status::Correct,
{
    if correct {
        if exists|i: int|
            0 <= i < existing.len() && (#[trigger] existing[i]).challenge_id == s.challenge_id
                && existing[i].status == Status::Correct && existing[i].user_id == s.user_id
                && (s.game_id is Some ==> existing[i].game_id == s.game_id) {
            let i = choose|i: int|
                0 <= i < existing.len() && (#[trigger] existing[i]).challenge_id == s.challenge_id
                    && existing[i].status == Status::Correct && existing[i].user_id == s.user_id
                    && (s.game_id is Some ==> existing[i].game_id == s.game_id);
            assert(is_prior_solve(s, existing[i]) && is_same_solver(s, existing[i]));
        }
        if s.game_id is Some && exists|i: int|
            0 <= i < existing.len() && (#[trigger] existing[i]).challenge_id == s.challenge_id
                && existing[i].status == Status::Correct && existing[i].game_id == s.game_id
                && existing[i].team_id == s.team_id {
            let i = choose|i: int|
                0 <= i < existing.len() && (#[trigger] existing[i]).challenge_id == s.challenge_id
                    && existing[i].status == Status::Correct && existing[i].game_id == s.game_id
                    && existing[i].team_id == s.team_id;
            assert(is_prior_solve(s, existing[i]) && is_same_solver(s, existing[i]));
        }
    }
}

/// The team (or the user) whose flag the checker compares against.
pub fn operator_id(s: &Submission) -> (r: i64)
    ensures
        r == operator_of(*s),
{
    match s.team_id {
        Some(t) => t,
        None => s.user_id,
    }
}

/// Judges a submission from the checker's verdict and the submissions stored
/// before it.
pub fn judge(s: &Submission, correct: bool, existing: &Vec<Submission>) -> (r: Status)
    ensures
        r == judgement(*s, correct, existing@),
{
    if !correct {
        return Status::Incorrect;
    }
    let mut i: usize = 0;
    while i < existing.len()
        invariant
            i <= existing@.len(),
            correct,
            forall|j: int| 0 <= j < i ==> !(is_prior_solve(*s, #[trigger] existing@[j])
                && is_same_solver(*s, existing@[j])),
        decreases existing@.len() - i,
    {
        let e = &existing[i];
        let prior = e.challenge_id == s.challenge_id && (s.game_id.is_none() || e.game_id
            == s.game_id) && e.status == Status::Correct;
        let same = e.user_id == s.user_id || (s.game_id.is_some() && e.team_id == s.team_id);
        if prior && same {
            assert(is_prior_solve(*s, existing@[i as int]) && is_same_solver(*s, existing@[i as int]));
            return Status::Invalid;
        }
        i = i + 1;
    }
    Status::Correct
}

/// Where the checking of one submission stands.
pub enum CheckState {
    /// About to look up the pending submission with this id.
    Start(i64),
    AwaitingSubmission(i64),
    AwaitingUser(Submission),
    AwaitingChallenge(Submission),
    AwaitingExisting(Submission),
    AwaitingVerdict(Submission, Vec<Submission>),
    AwaitingUpdate(Submission, Status),
    AwaitingPublish,
    Finished,
}

/// What came of the last action.
pub enum CheckEvent {
    Begin,
    /// The pending submission with the id, if there is one.
    SubmissionLoaded(Option<Submission>),
    /// Whether the author still exists.
    UserLoaded(bool),
    /// Whether the challenge still exists.
    ChallengeLoaded(bool),
    /// The correct submissions of the same challenge (and game).
    ExistingLoaded(Vec<Submission>),
    /// The checker's verdict on the flag, `None` when the checker failed.
    Checked(Option<bool>),
    /// The status was stored.
    Updated,
    /// The scoreboard job was queued.
    Published,
}

/// What the worker does next.
pub enum CheckAction {
    /// Load the submission with this id if it is still pending.
    LoadPendingSubmission(i64),
    /// Load the user with this id.
    LoadUser(i64),
    /// Load the challenge with this id.
    LoadChallenge(i64),
    /// Load the correct submissions to `challenge_id`, within `game_id` when
    /// it is given.
    LoadExisting { challenge_id: i64, game_id: Option<i64> },
    /// Run the challenge's checker on the submission's flag for this team or
    /// user.
    RunChecker { challenge_id: i64, operator_id: i64 },
    /// Delete the submission, then end with a failure.
    DeleteAndFail(i64),
    /// Store the status of the submission.
    Update { id: i64, status: Status },
    /// Queue a scoreboard recalculation of the game.
    PublishCalculator(i64),
    /// End successfully.
    Finish,
    /// End with a failure, leaving everything as it is.
    Fail,
}

/// Advances the checking of a submission by one event. Each lookup that finds
/// nothing ends it: a vanished pending submission with a failure, a vanished
/// author or challenge, or a failing checker, by deleting the submission. A
/// verdict is stored as the [`judgement`] of the submission, and a correct
/// submission in a game queues a scoreboard recalculation. An event that does
/// not answer the pending action ends the checking with a failure.
pub fn check_step(state: CheckState, event: CheckEvent) -> (r: (CheckState, CheckAction))
    ensures
        match (state, event) {
            (CheckState::Start(id), CheckEvent::Begin) => r.0 == CheckState::AwaitingSubmission(
                id,
            ) && r.1 == CheckAction::LoadPendingSubmission(id),
            (CheckState::AwaitingSubmission(_), CheckEvent::SubmissionLoaded(found)) => match found {
                None => r.0 == CheckState::Finished && r.1 == CheckAction::Fail,
                Some(s) => r.0 == CheckState::AwaitingUser(s) && r.1 == CheckAction::LoadUser(
                    s.user_id,
                ),
            },
            (CheckState::AwaitingUser(s), CheckEvent::UserLoaded(exists)) => if exists {
                r.0 == CheckState::AwaitingChallenge(s) && r.1 == CheckAction::LoadChallenge(
                    s.challenge_id,
                )
            } else {
                r.0 == CheckState::Finished && r.1 == CheckAction::DeleteAndFail(s.id)
            },
            (CheckState::AwaitingChallenge(s), CheckEvent::ChallengeLoaded(exists)) => if exists {
                r.0 == CheckState::AwaitingExisting(s) && r.1 == (CheckAction::LoadExisting {
                    challenge_id: s.challenge_id,
                    game_id: s.game_id,
                })
            } else {
                r.0 == CheckState::Finished && r.1 == CheckAction::DeleteAndFail(s.id)
            },
            (CheckState::AwaitingExisting(s), CheckEvent::ExistingLoaded(existing)) => r.0
                == CheckState::AwaitingVerdict(s, existing) && r.1 == (CheckAction::RunChecker {
                challenge_id: s.challenge_id,
                operator_id: operator_of(s),
            }),
            (CheckState::AwaitingVerdict(s, existing), CheckEvent::Checked(verdict)) => match verdict {
                None => r.0 == CheckState::Finished && r.1 == CheckAction::DeleteAndFail(s.id),
                Some(correct) => r.0 == CheckState::AwaitingUpdate(
                    s,
                    judgement(s, correct, existing@),
                ) && r.1 == (CheckAction::Update {
                    id: s.id,
                    status: judgement(s, correct, existing@),
                }),
            },
            (CheckState::AwaitingUpdate(s, status), CheckEvent::Updated) => match s.game_id {
                Some(g) => if status == Status::Correct {
                    r.0 == CheckState::AwaitingPublish && r.1 == CheckAction::PublishCalculator(g)
                } else {
                    r.0 == CheckState::Finished && r.1 == CheckAction::Finish
                },
                None => r.0 == CheckState::Finished && r.1 == CheckAction::Finish,
            },
            (CheckState::AwaitingPublish, CheckEvent::Published) => r.0 == CheckState::Finished
                && r.1 == CheckAction::Finish,
            _ => r.0 == CheckState::Finished && r.1 == CheckAction::Fail,
        },
{
    match (state, event) {
        (CheckState::Start(id), CheckEvent::Begin) => (
            CheckState::AwaitingSubmission(id),
            CheckAction::LoadPendingSubmission(id),
        ),
        (CheckState::AwaitingSubmission(_), CheckEvent::SubmissionLoaded(found)) => match found {
            None => (CheckState::Finished, CheckAction::Fail),
            Some(s) => (CheckState::AwaitingUser(s), CheckAction::LoadUser(s.user_id)),
        },
        (CheckState::AwaitingUser(s), CheckEvent::UserLoaded(exists)) => {
            if exists {
                (CheckState::AwaitingChallenge(s), CheckAction::LoadChallenge(s.challenge_id))
            } else {
                (CheckState::Finished, CheckAction::DeleteAndFail(s.id))
            }
        },
        (CheckState::AwaitingChallenge(s), CheckEvent::ChallengeLoaded(exists)) => {
            if exists {
                (
                    CheckState::AwaitingExisting(s),
                    CheckAction::LoadExisting { challenge_id: s.challenge_id, game_id: s.game_id },
                )
            } else {
                (CheckState::Finished, CheckAction::DeleteAndFail(s.id))
            }
        },
        (CheckState::AwaitingExisting(s), CheckEvent::ExistingLoaded(existing)) => {
            let op = operator_id(&s);
            (
                CheckState::AwaitingVerdict(s, existing),
                CheckAction::RunChecker { challenge_id: s.challenge_id, operator_id: op },
            )
        },
        (CheckState::AwaitingVerdict(s, existing), CheckEvent::Checked(verdict)) => match verdict {
            None => (CheckState::Finished, CheckAction::DeleteAndFail(s.id)),
            Some(correct) => {
                let status = judge(&s, correct, &existing);
                (CheckState::AwaitingUpdate(s, status), CheckAction::Update { id: s.id, status })
            },
        },
        (CheckState::AwaitingUpdate(s, status), CheckEvent::Updated) => match s.game_id {
            Some(g) => {
                if status == Status::Correct {
                    (CheckState::AwaitingPublish, CheckAction::PublishCalculator(g))
                } else {
                    (CheckState::Finished, CheckAction::Finish)
                }
            },
            None => (CheckState::Finished, CheckAction::Finish),
        },
        (CheckState::AwaitingPublish, CheckEvent::Published) => (
            CheckState::Finished,
            CheckAction::Finish,
        ),
        _ => (CheckState::Finished, CheckAction::Fail),
    }
}

/// A submission is stored as correct only when no correct submission to the
/// same challenge (in the same game) by the same user, or in a game by the
/// same team, was stored before it; a wrong flag is always stored as
/// incorrect.
pub proof fn lemma_correct_is_first_solve(s: Submission, correct: bool, existing: Seq<Submission>)
    ensures
        judgement(s, correct, existing) == Status::Correct ==> correct && forall|i: int|
            0 <= i < existing.len() && #[trigger] is_prior_solve(s, existing[i])
                ==> !is_same_solver(s, existing[i]),
        !correct ==> judgement(s, correct, existing) == Status::Incorrect,
        judgement(s, correct, existing) != Status::Pending,
{
}

/// The id a checker message carries: its text parsed as an `i64` (`None` for
/// a malformed message).
pub fn parse_checker_payload(payload: &str) -> (id: Option<i64>)
    ensures
        match id {
            Some(v) => parse_i64_spec(payload@) == Some(v as int),
            None => parse_i64_spec(payload@) is None,
        },
{
    parse_i64(payload)
}

} // verus!
