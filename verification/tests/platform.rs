use cds_web::model::{Email, Group, Idp, TeamState, TeamView, User};
use cds_web::router::api::idp::idp_id::avatar::get_idp_avatar;
use cds_web::router::api::idp::idp_id::{
    check_bind, check_identity_unbound, enabled_idp, identity_user, idp_preload_failure,
    new_pending_token, IdpRegisterRequest, pending_auth_key, pending_key, reloaded_identity, user_map,
};
use cds_web::router::api::index;
use cds_web::router::api::media::{
    media_cache_control, upload_counter_key_10m, upload_counter_key_24h, upload_step_10m,
    upload_step_24h, CounterAction,
};
use cds_web::router::api::team::team_id::{
    check_modify, check_quit, check_team_password, deleted_team_name, live_team,
};
use cds_web::router::api::team::{
    check_create_team, page_window, page_window_fits, parse_sorts, team_password_hash,
};
use cds_web::router::{frontend_fallback, healthz, session_settings};
use cds_web::traits::WebError;
use cds_web::util::jwt::{
    expand_jwt_secret, generate_jwt_token, jwt_claims, jwt_secret, token_expiry,
};
use cds_web::util::media::{check_upload_body, check_upload_type, media_redirect, no_file};

fn failure<T>(r: Result<T, WebError>) -> (u16, String) {
    match r {
        Ok(_) => panic!("expected a failure"),
        Err(e) => {
            let reply = e.into_response();
            (reply.status, reply.message)
        }
    }
}

fn user(group: Group) -> User {
    User {
        id: 42,
        username: "alice".to_string(),
        name: "Alice".to_string(),
        email: "alice@example.com".to_string(),
        is_verified: true,
        group,
        hashed_password: String::new(),
        description: None,
        avatar_hash: None,
    }
}

#[test]
fn providers() {
    let idp = |enabled: bool| Idp { id: 1, enabled, avatar_hash: None };
    assert!(enabled_idp(Some(idp(true))).is_ok());
    assert_eq!(failure(enabled_idp(Some(idp(false)))), (404, "idp_not_found".to_string()));
    assert_eq!(failure(enabled_idp(None)), (404, "idp_not_found".to_string()));
    let reply = idp_preload_failure("script broke".to_string()).into_response();
    assert_eq!((reply.status, reply.message.as_str()), (400, "script broke"));
    assert_eq!(failure(check_bind(true, true)), (409, "user_idp_already_bound".to_string()));
    assert_eq!(failure(check_bind(false, true)), (409, "idp_already_bound".to_string()));
    assert!(check_bind(false, false).is_ok());
    assert_eq!(pending_key("abc"), "idp_pending:abc");
    let reg = |username: &str, email: &str| IdpRegisterRequest {
        token: "t".to_string(),
        username: username.to_string(),
        name: "n".to_string(),
        email: email.to_string(),
        password: "p".to_string(),
    };
    assert!(reg("bob", "bob@example.com").validate());
    assert!(!reg("bo", "bob@example.com").validate());
    assert!(!reg("bob", "example.com").validate());
    assert_eq!(new_pending_token().chars().count(), 21);
    assert_eq!(failure(identity_user(None)), (404, "user_not_found".to_string()));
    assert_eq!(failure(reloaded_identity::<i64>(None)), (404, "user_idp_not_found".to_string()));
    assert_eq!(reloaded_identity(Some(7)).ok(), Some(7));
    assert_eq!(
        failure(pending_auth_key(None)),
        (400, "invalid_or_expired_token".to_string())
    );
    assert_eq!(
        failure(pending_auth_key(Some("no separator".to_string()))),
        (400, "invalid_token_payload".to_string())
    );
    assert_eq!(
        failure(pending_auth_key(Some("x1:key".to_string()))),
        (400, "invalid_token_payload".to_string())
    );
    assert_eq!(pending_auth_key(Some("7:k".to_string())).ok(), Some("k".to_string()));
    assert_eq!(pending_auth_key(Some("-3:a:b".to_string())).ok(), Some("a:b".to_string()));
    assert_eq!(
        failure(check_identity_unbound(true)),
        (409, "user_idp_already_bound".to_string())
    );
    assert_eq!(failure(get_idp_avatar(None)), (404, "idp_not_found".to_string()));
    let pictured = Idp { id: 1, enabled: true, avatar_hash: Some("h".to_string()) };
    assert_eq!(get_idp_avatar(Some(pictured)).ok(), Some("/api/media?hash=h".to_string()));
}

#[test]
fn provider_scripts_see_the_first_verified_address() {
    let emails = vec![
        Email { user_id: 42, email: "old@x.y".to_string(), verified: false },
        Email { user_id: 42, email: "main@x.y".to_string(), verified: true },
        Email { user_id: 42, email: "alt@x.y".to_string(), verified: true },
    ];
    let m = user_map(&user(Group::Admin), &emails);
    assert_eq!(m.get("id"), Some("42".to_string()));
    assert_eq!(m.get("username"), Some("alice".to_string()));
    assert_eq!(m.get("name"), Some("Alice".to_string()));
    assert_eq!(m.get("group"), Some("admin".to_string()));
    assert_eq!(m.get("email"), Some("main@x.y".to_string()));
    assert_eq!(m.entries().len(), 5);
    let unverified = vec![Email { user_id: 42, email: "old@x.y".to_string(), verified: false }];
    let bare = user_map(&user(Group::Guest), &unverified);
    assert_eq!(bare.get("email"), None);
    assert_eq!(bare.get("group"), Some("guest".to_string()));
    assert_eq!(bare.get_or_empty("email"), "");
}

#[test]
fn upload_counters() {
    assert_eq!(upload_counter_key_10m(3), "media:upload:10m:3");
    assert_eq!(upload_counter_key_24h(3), "media:upload:24h:3");
    assert!(matches!(upload_step_10m(None), Ok(CounterAction::Start)));
    assert!(matches!(upload_step_10m(Some(9)), Ok(CounterAction::Increment)));
    assert_eq!(failure(upload_step_10m(Some(10))), (429, "upload_media_10m".to_string()));
    assert!(matches!(upload_step_24h(Some(49)), Ok(CounterAction::Increment)));
    assert_eq!(failure(upload_step_24h(Some(50))), (429, "upload_media_24h".to_string()));
    let mut counter: Option<i32> = None;
    let mut accepted = 0;
    for _ in 0..11 {
        match upload_step_10m(counter) {
            Ok(CounterAction::Start) => counter = Some(1),
            Ok(CounterAction::Increment) => counter = counter.map(|c| c + 1),
            Err(_) => break,
        }
        accepted += 1;
    }
    assert_eq!((accepted, counter), (10, Some(10)));
    assert_eq!(media_cache_control(), "public, max-age=31536000, immutable");
}

#[test]
fn uploads() {
    assert_eq!(
        failure(check_upload_type(None, "image")),
        (400, "missing_content_type".to_string())
    );
    assert_eq!(
        failure(check_upload_type(Some("not a type".to_string()), "image")),
        (400, "invalid_mime_type".to_string())
    );
    assert!(check_upload_type(Some("image/png".to_string()), "image").is_ok());
    assert!(check_upload_type(Some("application/pdf".to_string()), "pdf").is_ok());
    assert_eq!(
        failure(check_upload_type(Some("text/plain".to_string()), "image")),
        (400, "forbidden_file_type".to_string())
    );
    assert_eq!(check_upload_body(Some(vec![1, 2])).ok(), Some(vec![1, 2]));
    assert_eq!(failure(check_upload_body(None)), (400, "size_too_large".to_string()));
    assert_eq!(failure::<()>(Err(no_file())), (400, "no_file".to_string()));
    assert_eq!(media_redirect(Some("h".to_string()), "gone").ok(), Some("/api/media?hash=h".to_string()));
    assert_eq!(failure(media_redirect(None, "gone")), (404, "gone".to_string()));
}

#[test]
fn sorts_and_pages() {
    let keys = parse_sorts("-created_at,name");
    assert_eq!(keys.len(), 2);
    assert_eq!((keys[0].field.as_str(), keys[0].descending), ("created_at", true));
    assert_eq!((keys[1].field.as_str(), keys[1].descending), ("name", false));
    let single = parse_sorts("");
    assert_eq!(single.len(), 1);
    assert_eq!((single[0].field.as_str(), single[0].descending), ("", false));
    assert_eq!(page_window(Some(3), Some(10)), Some((20, 10)));
    assert_eq!(page_window(None, Some(10)), None);
    assert!(page_window_fits(Some(1), Some(u64::MAX)));
    assert!(!page_window_fits(Some(0), Some(10)));
    assert!(!page_window_fits(Some(3), Some(u64::MAX)));
    assert!(page_window_fits(None, None));
}

#[test]
fn teams_in_the_envelope_api() {
    assert!(check_create_team(&user(Group::Admin)).is_ok());
    assert_eq!(failure(check_create_team(&user(Group::User))), (403, String::new()));
    let hash = team_password_hash("join me".to_string());
    assert!(matches!(check_team_password("join me".to_string(), hash.clone()), Some(Ok(()))));
    assert_eq!(
        failure(check_team_password("nope".to_string(), hash).unwrap()),
        (400, "invalid_password".to_string())
    );
    assert!(check_team_password("x".to_string(), "plain".to_string()).is_none());
    let team = TeamView {
        id: 1,
        game_id: 0,
        name: "blue".to_string(),
        state: TeamState::Passed,
        avatar_hash: None,
        deleted_at: None,
    };
    assert_eq!(deleted_team_name(&team), "[DELETED]_blue");
    assert_eq!(failure(live_team(None)), (400, "team_not_found".to_string()));
    assert!(live_team(Some(team)).is_ok());
    assert_eq!(failure(check_modify(false)), (403, String::new()));
    assert_eq!(failure(check_quit(1)), (400, "delete_instead_of_leave".to_string()));
    assert!(check_quit(2).is_ok());
}

#[test]
fn session_tokens_carry_the_user() {
    assert_eq!(token_expiry(1000, 60), 4600);
    assert_eq!(token_expiry(1000, -1), 940);
    let claims = jwt_claims(42, 4102444800);
    assert_eq!((claims.id, claims.exp), (42, 4102444800));
    let token = generate_jwt_token(42, 4102444800, "secret");
    let decoded = jsonwebtoken::decode::<serde_json::Value>(
        &token,
        &jsonwebtoken::DecodingKey::from_secret(b"secret"),
        &jsonwebtoken::Validation::default(),
    )
    .expect("the token verifies under its secret");
    assert_eq!(decoded.claims["id"], 42);
    assert_eq!(decoded.claims["exp"], 4102444800u64);
    assert_eq!(decoded.header.alg, jsonwebtoken::Algorithm::HS256);
    assert!(jsonwebtoken::decode::<serde_json::Value>(
        &token,
        &jsonwebtoken::DecodingKey::from_secret(b"other"),
        &jsonwebtoken::Validation::default(),
    )
    .is_err());
}

#[test]
fn secrets_expand_uuid_placeholders() {
    assert_eq!(expand_jwt_secret("a[uuid]b[UUID]c[Uuid]", "X"), Some("aXbXcX".to_string()));
    assert_eq!(expand_jwt_secret("plain", "X"), Some("plain".to_string()));
    assert_eq!(expand_jwt_secret("[uid][uuidd]", "X"), Some("[uid][uuidd]".to_string()));
    let s = jwt_secret("key-[uuid]").unwrap();
    assert_eq!(s.len(), 4 + 32);
    assert!(s.starts_with("key-"));
    assert!(s[4..].chars().all(|c| c.is_ascii_digit() || ('a'..='f').contains(&c)));
}

#[test]
fn service_routes() {
    assert_eq!(healthz(), "Ok");
    assert_eq!(index(), "This is the heart of CdsCTF!");
    assert_eq!(frontend_fallback("dist"), "dist/index.html");
    let s = session_settings();
    assert_eq!(s.name, "cds.id");
    assert!(!s.secure && s.http_only);
}
