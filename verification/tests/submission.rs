use cds_web::model::{ChallengeDetail, Status, Submission};
use cds_web::router::api::submission::checker::{
    check_step, judge, operator_id, parse_checker_payload, CheckAction, CheckEvent, CheckState,
};
use cds_web::router::api::submission::{
    check_submission_scope, check_submission_team, list_submissions_page, new_submission,
    next_submission_count, submission_rate_key, CreateSubmissionRequest, ListSubmissionsRequest,
};
use cds_web::traits::WebError;

fn body(game: Option<i64>, team: Option<i64>) -> CreateSubmissionRequest {
    CreateSubmissionRequest { content: "flag{x}".to_string(), team_id: team, game_id: game, challenge_id: 9 }
}

fn challenge(public: bool) -> ChallengeDetail {
    ChallengeDetail { id: 9, public, has_instance: true, has_flag: true }
}

#[test]
fn eleven_submissions_a_minute() {
    let mut counter = None;
    for n in 1..=11 {
        let next = next_submission_count(counter).ok().expect("accepted");
        assert_eq!(next, n);
        counter = Some(next);
    }
    match next_submission_count(counter) {
        Err(WebError::TooManyRequests(m)) => assert_eq!(m, "submission"),
        _ => panic!("the twelfth is refused"),
    }
    assert_eq!(submission_rate_key(42), "submission:user:42");
}

#[test]
fn scope_rules() {
    assert!(matches!(check_submission_scope(&body(Some(1), None), &challenge(true)),
        Err(WebError::BadRequest(m)) if m == "invalid"));
    assert!(matches!(check_submission_scope(&body(None, None), &challenge(false)),
        Err(WebError::BadRequest(m)) if m == "challenge_not_found"));
    assert_eq!(check_submission_scope(&body(None, None), &challenge(true)).ok(), Some(None));
    assert_eq!(check_submission_scope(&body(Some(1), Some(2)), &challenge(false)).ok(), Some(Some((1, 2))));
    assert!(matches!(check_submission_team(0), Err(WebError::BadRequest(m)) if m == "team_not_found"));
    assert!(check_submission_team(1).is_ok());
    let s = new_submission(body(Some(1), Some(2)), 5);
    assert_eq!((s.user_id, s.team_id, s.game_id, s.challenge_id, s.status), (5, Some(2), Some(1), 9, Status::Pending));
    assert_eq!(s.content, "flag{x}");
}

#[test]
fn listing_pages() {
    let mut q = ListSubmissionsRequest {
        id: None, user_id: None, team_id: None, game_id: None, challenge_id: None,
        status: None, page: None, size: None, sorts: None,
    };
    assert_eq!(list_submissions_page(&q), (1, 10));
    q.page = Some(3);
    q.size = Some(500);
    assert_eq!(list_submissions_page(&q), (3, 100));
}

fn sub(id: i64, user: i64, team: Option<i64>, game: Option<i64>, status: Status) -> Submission {
    Submission { id, user_id: user, team_id: team, game_id: game, challenge_id: 9, status }
}

#[test]
fn judging() {
    let s = sub(10, 1, Some(7), Some(2), Status::Pending);
    assert_eq!(operator_id(&s), 7);
    assert_eq!(operator_id(&sub(10, 1, None, None, Status::Pending)), 1);
    assert_eq!(judge(&s, false, &vec![]), Status::Incorrect);
    assert_eq!(judge(&s, true, &vec![]), Status::Correct);
    // a teammate solved it before
    assert_eq!(judge(&s, true, &vec![sub(3, 4, Some(7), Some(2), Status::Correct)]), Status::Invalid);
    // another team solved it: still correct
    assert_eq!(judge(&s, true, &vec![sub(3, 4, Some(8), Some(2), Status::Correct)]), Status::Correct);
    // the same user solved it outside games
    let p = sub(10, 1, None, None, Status::Pending);
    assert_eq!(judge(&p, true, &vec![sub(3, 1, None, None, Status::Correct)]), Status::Invalid);
    // an incorrect earlier attempt does not count
    assert_eq!(judge(&p, true, &vec![sub(3, 1, None, None, Status::Incorrect)]), Status::Correct);
}

#[test]
fn checker_runs_to_publication() {
    let s = sub(10, 1, Some(7), Some(2), Status::Pending);
    let (st, a) = check_step(CheckState::Start(10), CheckEvent::Begin);
    assert!(matches!(a, CheckAction::LoadPendingSubmission(10)));
    let (st, a) = check_step(st, CheckEvent::SubmissionLoaded(Some(s)));
    assert!(matches!(a, CheckAction::LoadUser(1)));
    let (st, a) = check_step(st, CheckEvent::UserLoaded(true));
    assert!(matches!(a, CheckAction::LoadChallenge(9)));
    let (st, a) = check_step(st, CheckEvent::ChallengeLoaded(true));
    assert!(matches!(a, CheckAction::LoadExisting { challenge_id: 9, game_id: Some(2) }));
    let (st, a) = check_step(st, CheckEvent::ExistingLoaded(vec![]));
    assert!(matches!(a, CheckAction::RunChecker { challenge_id: 9, operator_id: 7 }));
    let (st, a) = check_step(st, CheckEvent::Checked(Some(true)));
    assert!(matches!(a, CheckAction::Update { id: 10, status: Status::Correct }));
    let (st, a) = check_step(st, CheckEvent::Updated);
    assert!(matches!(a, CheckAction::PublishCalculator(2)));
    let (_, a) = check_step(st, CheckEvent::Published);
    assert!(matches!(a, CheckAction::Finish));
}

#[test]
fn checker_discards_orphans() {
    let s = sub(10, 1, None, None, Status::Pending);
    let (_, a) = check_step(CheckState::AwaitingUser(s), CheckEvent::UserLoaded(false));
    assert!(matches!(a, CheckAction::DeleteAndFail(10)));
    let (_, a) = check_step(CheckState::AwaitingChallenge(s), CheckEvent::ChallengeLoaded(false));
    assert!(matches!(a, CheckAction::DeleteAndFail(10)));
    let (_, a) = check_step(CheckState::AwaitingVerdict(s, vec![]), CheckEvent::Checked(None));
    assert!(matches!(a, CheckAction::DeleteAndFail(10)));
    let (_, a) = check_step(CheckState::AwaitingSubmission(10), CheckEvent::SubmissionLoaded(None));
    assert!(matches!(a, CheckAction::Fail));
    // outside games a correct flag publishes nothing
    let (_, a) = check_step(CheckState::AwaitingUpdate(s, Status::Correct), CheckEvent::Updated);
    assert!(matches!(a, CheckAction::Finish));
    // an event out of turn ends the run
    let (_, a) = check_step(CheckState::Start(1), CheckEvent::Updated);
    assert!(matches!(a, CheckAction::Fail));
}

#[test]
fn checker_messages() {
    assert_eq!(parse_checker_payload("123"), Some(123));
    assert_eq!(parse_checker_payload("x"), None);
}
