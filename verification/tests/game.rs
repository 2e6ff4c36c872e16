use cds_web::model::{GameDetail, Group, TeamState, TeamView, User};
use cds_web::router::api::game::game_id::challenge::check_game_access;
use cds_web::router::api::game::game_id::icon::get_game_icon;
use cds_web::router::api::game::game_id::notice::list_total;
use cds_web::router::api::game::game_id::poster::game_poster_dir;
use cds_web::router::api::game::game_id::team::profile::avatar::team_avatar_path;
use cds_web::router::api::game::game_id::team::profile::{check_team_admin, set_team_ready as set_profile_ready};
use cds_web::router::api::game::game_id::team::team_id::avatar::get_team_avatar;
use cds_web::router::api::game::game_id::team::team_id::token::{
    check_token_access, is_admin, token_team,
};
use cds_web::router::api::game::game_id::team::team_id::user::{
    check_create_team_user, check_delete_team_user, join_token_key,
};
use cds_web::router::api::game::game_id::team::team_id::{
    check_invitation, check_join, JoinTeamRequest,
};
use cds_web::router::api::game::game_id::team::us::token::{invite_key, new_invite_token};
use cds_web::router::api::game::game_id::team::us::user::check_can_leave;
use cds_web::router::api::game::game_id::team::us::writeup::{
    check_writeup_window, writeup_file_name, writeup_path,
};
use cds_web::router::api::game::game_id::team::us::{check_team_preparing, set_team_ready};
use cds_web::router::api::game::game_id::team::{check_not_in_game, new_team, CreateTeamRequest};
use cds_web::router::api::game::game_id::get_game;
use cds_web::router::api::game::{games_page, GetGameRequest};
use cds_web::traits::WebError;
use cds_web::util::media::{get_write_up, writeup_content_disposition};

fn failure<T>(r: Result<T, WebError>) -> (u16, String) {
    match r {
        Ok(_) => panic!("expected a failure"),
        Err(e) => {
            let reply = e.into_response();
            (reply.status, reply.message)
        }
    }
}

fn game() -> GameDetail {
    GameDetail {
        id: 1,
        title: "game".to_owned(),
        sketch: None,
        description: None,
        enabled: true,
        public: true,
        paused: false,
        blacked_out: false,
        writeup_required: false,
        member_limit_min: 2,
        member_limit_max: 4,
        started_at: 100,
        frozen_at: 150,
        ended_at: 200,
        icon_hash: None,
        poster_hash: None,
        created_at: 1,
    }
}

fn team(state: TeamState) -> TeamView {
    TeamView {
        id: 5,
        game_id: 1,
        name: "t".to_string(),
        state,
        avatar_hash: None,
        deleted_at: None,
    }
}

fn user(group: Group) -> User {
    User {
        id: 3,
        username: "alice".to_string(),
        name: "Alice".to_string(),
        email: "alice@example.com".to_string(),
        is_verified: true,
        group,
        hashed_password: String::new(),
        description: None,
        avatar_hash: None,
    }
}

#[test]
fn game_listing_pages() {
    let req = |page: Option<u64>, size: Option<u64>| GetGameRequest {
        id: None,
        title: None,
        page,
        size,
        sorts: None,
    };
    assert_eq!(games_page(&req(None, None)), (1, 10));
    assert_eq!(games_page(&req(Some(3), Some(50))), (3, 20));
    assert_eq!(games_page(&req(Some(2), Some(5))), (2, 5));
    assert!(get_game(game()).is_ok());
    assert_eq!(failure(get_game(GameDetail { enabled: false, ..game() })), (404, String::new()));
    assert_eq!(list_total(&vec![1, 2, 3]), 3);
}

#[test]
fn challenges_open_to_members_during_the_game() {
    assert!(check_game_access(&game(), true, 100).is_ok());
    assert!(check_game_access(&game(), true, 200).is_ok());
    assert_eq!(failure(check_game_access(&game(), true, 201)), (403, String::new()));
    assert_eq!(failure(check_game_access(&game(), false, 150)), (403, String::new()));
}

#[test]
fn readiness() {
    assert!(check_team_preparing(&team(TeamState::Preparing)).is_ok());
    assert_eq!(
        failure(check_team_preparing(&team(TeamState::Passed))),
        (400, "team_not_preparing".to_string())
    );
    assert_eq!(
        set_team_ready(&game(), &team(TeamState::Preparing), 2).ok(),
        Some(TeamState::Passed)
    );
    let private = GameDetail { public: false, ..game() };
    assert_eq!(
        set_team_ready(&private, &team(TeamState::Preparing), 4).ok(),
        Some(TeamState::Pending)
    );
    assert_eq!(
        failure(set_team_ready(&game(), &team(TeamState::Preparing), 1)),
        (400, "member_limit_not_satisfied".to_string())
    );
    assert_eq!(
        failure(set_team_ready(&game(), &team(TeamState::Preparing), 5)),
        (400, "member_limit_not_satisfied".to_string())
    );
    assert_eq!(
        failure(set_team_ready(&game(), &team(TeamState::Pending), 2)),
        (400, "team_not_preparing".to_string())
    );
    assert_eq!(
        set_profile_ready(&game(), &team(TeamState::Preparing), 3).ok(),
        Some(TeamState::Pending)
    );
    assert_eq!(
        failure(set_profile_ready(&game(), &team(TeamState::Preparing), 1)),
        (400, "member_limit_not_satisfied".to_string())
    );
    assert_eq!(
        failure(set_profile_ready(&game(), &team(TeamState::Passed), 3)),
        (400, "team_not_preparing".to_string())
    );
}

#[test]
fn creating_and_joining_teams() {
    assert!(check_not_in_game(false).is_ok());
    assert_eq!(failure(check_not_in_game(true)), (400, "user_already_in_game".to_string()));
    let t = new_team(
        CreateTeamRequest {
            name: "n".to_string(),
            email: Some("e@x.y".to_string()),
            slogan: None,
            description: Some("d".to_string()),
        },
        7,
    );
    assert_eq!((t.name.as_str(), t.game_id, t.state), ("n", 7, TeamState::Preparing));
    assert_eq!(t.email, Some("e@x.y".to_string()));

    let body = |team_id: i64| JoinTeamRequest { team_id, token: "tok".to_string() };
    assert!(check_join(&team(TeamState::Preparing), false, &body(5)).is_ok());
    assert_eq!(
        failure(check_join(&team(TeamState::Banned), false, &body(5))),
        (400, "team_not_preparing".to_string())
    );
    assert_eq!(
        failure(check_join(&team(TeamState::Preparing), true, &body(5))),
        (400, "user_already_in_game".to_string())
    );
    assert_eq!(
        failure(check_join(&team(TeamState::Preparing), false, &body(6))),
        (400, "invalid_team".to_string())
    );
}

#[test]
fn invitations_round_trip() {
    assert_eq!(invite_key(5), "team:5:invite");
    let token = new_invite_token();
    assert_eq!(token.chars().count(), 16);
    assert!(check_invitation(Some(token.clone()), &token).is_ok());
    assert_eq!(
        failure(check_invitation(Some(token.clone()), &"other".to_string())),
        (400, "invalid_invite_token".to_string())
    );
    assert_eq!(failure(check_invitation(None, &token)), (400, "no_invite_token".to_string()));
    assert_eq!(join_token_key(5), "team:5:token");
}

#[test]
fn membership_rules() {
    assert!(check_can_leave(2).is_ok());
    assert_eq!(failure(check_can_leave(1)), (400, "team_has_no_other_member".to_string()));
    assert!(check_create_team_user(true).is_ok());
    assert_eq!(failure(check_create_team_user(false)), (403, String::new()));
    assert!(check_delete_team_user(true, &team(TeamState::Passed)).is_ok());
    let deleted = TeamView { deleted_at: Some(9), ..team(TeamState::Passed) };
    assert_eq!(failure(check_delete_team_user(true, &deleted)), (403, String::new()));
    assert!(is_admin(&user(Group::Admin)));
    assert!(!is_admin(&user(Group::User)));
    assert!(check_token_access(false, true).is_ok());
    assert_eq!(failure(check_token_access(false, false)), (403, String::new()));
    assert_eq!(failure(token_team(None)), (400, "team_not_found".to_string()));
    assert!(check_team_admin(&user(Group::Admin)).is_ok());
    assert_eq!(failure(check_team_admin(&user(Group::User))), (403, String::new()));
}

#[test]
fn writeups_and_images() {
    assert_eq!(writeup_path(1, 5), "games/1/teams/5/writeup");
    assert_eq!(writeup_file_name("abc"), "abc.pdf");
    assert!(check_writeup_window(&game(), 150).is_ok());
    assert_eq!(
        failure(check_writeup_window(&game(), 99)),
        (400, "game_is_not_ongoing".to_string())
    );
    assert_eq!(writeup_content_disposition(1, 5), "inline; filename=\"writeup-1-5.pdf\"");
    assert_eq!(
        get_write_up(vec![("a.pdf".to_string(), 3), ("b.pdf".to_string(), 4)]).ok(),
        Some("a.pdf".to_string())
    );
    assert_eq!(failure(get_write_up(Vec::new())), (404, String::new()));
    assert_eq!(game_poster_dir(1), "games/1");
    assert_eq!(team_avatar_path(1, 5), "games/1/teams/5/avatar");
    assert_eq!(failure(get_game_icon(None)), (404, "game_not_found".to_string()));
    assert_eq!(failure(get_game_icon(Some(game()))), (404, "icon_not_found".to_string()));
    let iconic = GameDetail { icon_hash: Some("h1".to_string()), ..game() };
    assert_eq!(get_game_icon(Some(iconic)).ok(), Some("/api/media?hash=h1".to_string()));
    let pictured = TeamView { avatar_hash: Some("h2".to_string()), ..team(TeamState::Passed) };
    assert_eq!(get_team_avatar(Some(pictured)).ok(), Some("/api/media?hash=h2".to_string()));
    assert_eq!(
        failure(get_team_avatar(Some(team(TeamState::Passed)))),
        (404, "avatar_not_found".to_string())
    );
}
