use cds_web::model::{Group, User};
use cds_web::traits::{AuthPrincipal, CaptchaError, DbError, WebError};

fn reply(e: WebError) -> (u16, String, String, bool) {
    let r = e.into_response();
    let server = r.is_server_error();
    (r.status, r.kind.to_string(), r.message, server)
}

#[test]
fn each_error_has_its_status_and_kind() {
    let s = |x: &str| x.to_string();
    assert_eq!(reply(WebError::NotFound(s("a"))), (404, s("not_found"), s("a"), false));
    assert_eq!(reply(WebError::BadRequest(s("b"))), (400, s("bad_request"), s("b"), false));
    assert_eq!(reply(WebError::Unauthorized(s(""))), (401, s("unauthorized"), s(""), false));
    assert_eq!(reply(WebError::Forbidden(s("f"))), (403, s("forbidden"), s("f"), false));
    assert_eq!(reply(WebError::Conflict(s("c"))), (409, s("conflict"), s("c"), false));
    assert_eq!(reply(WebError::TooManyRequests(s("t"))), (429, s("too_many_requests"), s("t"), false));
    assert_eq!(reply(WebError::UnprocessableEntity(s("u"))), (422, s("unprocessable_entity"), s("u"), false));
    assert_eq!(reply(WebError::Locked(s("game_paused"))), (423, s("locked"), s("game_paused"), false));
    assert_eq!(reply(WebError::InternalServerError(s("i"))), (500, s("internal_server_error"), s("i"), true));
    assert_eq!(reply(WebError::MultipartError(s("m"))), (400, s("multipart"), s("m"), false));
    assert_eq!(reply(WebError::HttpError(s("h"))), (500, s("http"), s("h"), true));
    assert_eq!(reply(WebError::TowerSessionsError(s("x"))), (500, s("tower_sessions"), s("x"), true));
    assert_eq!(reply(WebError::IdpError(s("idp"))), (400, s("idp"), s("idp"), false));
    assert_eq!(reply(WebError::CacheError(s("x"))), (500, s("cache"), s("x"), true));
    assert_eq!(reply(WebError::EnvError(s("x"))), (500, s("env"), s("x"), true));
    assert_eq!(reply(WebError::EventError(s("x"))), (500, s("event"), s("x"), true));
    assert_eq!(reply(WebError::MediaError(s("x"))), (500, s("media"), s("x"), true));
    assert_eq!(reply(WebError::QueueError(s("x"))), (500, s("queue"), s("x"), true));
    assert_eq!(reply(WebError::ClusterError(s("x"))), (500, s("cluster"), s("x"), true));
    assert_eq!(reply(WebError::OtherError(s("x"))), (500, s("other"), s("x"), true));
}

#[test]
fn outside_failures_are_told_apart() {
    let s = |x: &str| x.to_string();
    assert_eq!(reply(WebError::DbError(DbError::NotFound(s("user")))), (404, s("db"), s("user"), false));
    assert_eq!(reply(WebError::DbError(DbError::Other(s("boom")))), (500, s("db"), s("boom"), true));
    assert_eq!(reply(WebError::CaptchaError(CaptchaError::Gone(s("gone")))), (410, s("captcha"), s("gone"), false));
    assert_eq!(
        reply(WebError::CaptchaError(CaptchaError::MissingField(s("id")))),
        (400, s("captcha"), s("id"), false)
    );
    assert_eq!(reply(WebError::CaptchaError(CaptchaError::Other(s("o")))), (500, s("captcha"), s("o"), true));
}

#[test]
fn reply_body_carries_the_message() {
    let r = WebError::Conflict("email_already_exists".to_string()).into_response();
    assert_eq!(r.body().msg, Some("email_already_exists".to_string()));
}

fn user() -> User {
    User {
        id: 3,
        username: "alice".to_string(),
        name: "Alice".to_string(),
        email: "alice@example.com".to_string(),
        is_verified: true,
        group: Group::User,
        hashed_password: String::new(),
        description: None,
        avatar_hash: None,
    }
}

#[test]
fn anonymous_callers_are_unauthorized() {
    let anon = AuthPrincipal { operator: None, client_ip: "127.0.0.1".to_string() };
    match anon.require_operator() {
        Err(WebError::Unauthorized(m)) => assert_eq!(m, ""),
        _ => panic!("expected Unauthorized"),
    }
    let signed = AuthPrincipal { operator: Some(user()), client_ip: String::new() };
    assert_eq!(signed.require_operator().map(|u| u.id).ok(), Some(3));
}
