use cds_web::model::{ChallengeDetail, GameDetail, TeamState, TeamView};
use cds_web::traits::WebError;
use cds_web::util::loader::{
    ensure_game_not_paused, ensure_game_ongoing, prepare_challenge, prepare_game, prepare_self_team,
};

fn game() -> GameDetail {
    GameDetail {
        id: 1,
        title: "game".to_owned(),
        sketch: None,
        description: None,
        enabled: true,
        public: true,
        paused: false,
        blacked_out: false,
        writeup_required: false,
        member_limit_min: 1,
        member_limit_max: 3,
        started_at: 100,
        frozen_at: 150,
        ended_at: 200,
        icon_hash: None,
        poster_hash: None,
        created_at: 1,
    }
}

#[test]
fn paused_game_is_locked() {
    let mut game = game();
    game.paused = true;

    assert!(matches!(
        ensure_game_not_paused(&game),
        Err(WebError::Locked(_))
    ));
}

#[test]
fn competition_window_includes_both_boundaries() {
    let game = game();

    assert!(ensure_game_ongoing(&game, 100).is_ok());
    assert!(ensure_game_ongoing(&game, 200).is_ok());
    assert!(matches!(
        ensure_game_ongoing(&game, 99),
        Err(WebError::Forbidden(_))
    ));
    assert!(matches!(
        ensure_game_ongoing(&game, 201),
        Err(WebError::Forbidden(_))
    ));
}

#[test]
fn running_game_is_not_locked() {
    assert!(ensure_game_not_paused(&game()).is_ok());
    match ensure_game_not_paused(&GameDetail { paused: true, ..game() }) {
        Err(WebError::Locked(m)) => assert_eq!(m, "game_paused"),
        _ => panic!("expected Locked"),
    }
    match ensure_game_ongoing(&game(), 0) {
        Err(WebError::Forbidden(m)) => assert_eq!(m, "game_not_ongoing"),
        _ => panic!("expected Forbidden"),
    }
}

#[test]
fn lookups_report_what_is_missing() {
    match prepare_game(None) {
        Err(WebError::NotFound(m)) => assert_eq!(m, "challenge_not_found"),
        _ => panic!("expected NotFound"),
    }
    assert_eq!(prepare_game(Some(game())).map(|g| g.id).ok(), Some(1));
    let c = ChallengeDetail { id: 7, public: true, has_instance: false, has_flag: true };
    assert_eq!(prepare_challenge(Some(c)).map(|c| c.id).ok(), Some(7));
    match prepare_challenge(None) {
        Err(WebError::NotFound(m)) => assert_eq!(m, "challenge_not_found"),
        _ => panic!("expected NotFound"),
    }
}

#[test]
fn own_team_is_the_first_found() {
    let team = |id: i64| TeamView {
        id,
        game_id: 1,
        name: format!("t{}", id),
        state: TeamState::Preparing,
        avatar_hash: None,
        deleted_at: None,
    };
    assert_eq!(prepare_self_team(vec![team(4), team(5)]).map(|t| t.id).ok(), Some(4));
    match prepare_self_team(Vec::new()) {
        Err(WebError::NotFound(m)) => assert_eq!(m, "team_not_found"),
        _ => panic!("expected NotFound"),
    }
}
