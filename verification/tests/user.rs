use cds_web::model::{ChallengeDetail, Email, Group, Note, User};
use cds_web::router::api::user::forget::{
    forget_buffer_key, forget_code_key, forget_user, reset_subject,
};
use cds_web::router::api::user::me::avatar::user_avatar_path;
use cds_web::router::api::user::me::email::{
    check_email_code, check_email_enabled, check_send_interval, check_unverified_email,
    email_buffer_key, email_code_key, new_email_code, normalize_email, verification_mail,
    UserAddEmailRequest,
};
use cds_web::router::api::user::me::note::{
    check_note_challenge, save_my_note, NoteWrite, SaveMyNoteRequest,
};
use cds_web::router::api::user::me::{
    authenticate, delete_user_profile, get_user_profile, update_user_profile_password,
    DeleteUserProfileRequest, UpdateUserProfilePasswordRequest,
};
use cds_web::router::api::user::profile::avatar::user_avatar_dir;
use cds_web::router::api::user::profile::verify::check_not_verified;
use cds_web::router::api::user::profile::{
    deleted_account_names, normalize_profile_update, profile_verified, UpdateUserProfileRequest,
};
use cds_web::router::api::user::user_id::avatar::get_user_avatar;
use cds_web::router::api::user::user_id::get_user;
use cds_web::router::api::user::{
    check_captcha, check_email_unique, check_registration_enabled, check_username_unique,
    login_account, login_user, new_email, new_user, normalize_registration, UserLoginRequest,
    UserRegisterRequest,
};
use cds_web::traits::WebError;
use cds_web::util::crypto::{check_password, hash_password, verify_password};
use cds_web::util::email::extract_title;

fn failure<T>(r: Result<T, WebError>) -> (u16, String) {
    match r {
        Ok(_) => panic!("expected a failure"),
        Err(e) => {
            let reply = e.into_response();
            (reply.status, reply.message)
        }
    }
}

fn user_with_hash(hash: String) -> User {
    User {
        id: 3,
        username: "alice".to_string(),
        name: "Alice".to_string(),
        email: "alice@example.com".to_string(),
        is_verified: true,
        group: Group::User,
        hashed_password: hash,
        description: None,
        avatar_hash: None,
    }
}

#[test]
fn passwords_hash_and_verify() {
    let hash = hash_password("s3cret".to_string());
    assert!(hash.starts_with("$argon2id$"));
    assert!(verify_password("s3cret".to_string(), hash.clone()));
    assert!(!verify_password("other".to_string(), hash.clone()));
    assert_eq!(check_password("s3cret".to_string(), hash.clone()), Some(true));
    assert_eq!(check_password("other".to_string(), hash), Some(false));
    assert_eq!(check_password("s3cret".to_string(), "plain text".to_string()), None);
}

#[test]
fn registration_then_login() {
    let body = UserRegisterRequest {
        name: "Alice".to_string(),
        username: "Alice".to_string(),
        email: "Alice@Example.COM".to_string(),
        password: "s3cret".to_string(),
    };
    let body = normalize_registration(body);
    assert_eq!(body.username, "alice");
    assert_eq!(body.email, "alice@example.com");
    assert_eq!(body.name, "Alice");
    let first = new_user(body, 0);
    assert_eq!(first.group, Group::Admin);
    assert_eq!(first.username, "alice");
    let stored = user_with_hash(first.hashed_password);
    let ok = login_user(Some(stored), "s3cret".to_string());
    assert!(matches!(ok, Some(Ok(ref u)) if u.id == 3));
    let stored = user_with_hash(hash_password("s3cret".to_string()));
    assert_eq!(
        failure(login_user(Some(stored), "wrong".to_string()).unwrap()),
        (400, "invalid".to_string())
    );
    assert_eq!(
        failure(login_user(None, "s3cret".to_string()).unwrap()),
        (400, "invalid".to_string())
    );
    assert!(login_user(Some(user_with_hash("x".to_string())), "s3cret".to_string()).is_none());

    let later = new_user(
        UserRegisterRequest {
            name: "Bob".to_string(),
            username: "bob".to_string(),
            email: "bob@example.com".to_string(),
            password: "pw".to_string(),
        },
        1,
    );
    assert_eq!(later.group, Group::User);
}

#[test]
fn registration_refusals() {
    assert!(check_captcha(true).is_ok());
    assert_eq!(failure(check_captcha(false)), (400, "captcha_invalid".to_string()));
    assert_eq!(
        failure(check_registration_enabled(false)),
        (400, "registration_disabled".to_string())
    );
    assert!(check_registration_enabled(true).is_ok());
    assert_eq!(failure(check_email_unique(false)), (409, "email_already_exists".to_string()));
    assert_eq!(
        failure(check_username_unique(false)),
        (409, "username_already_exists".to_string())
    );
    assert!(check_email_unique(true).is_ok() && check_username_unique(true).is_ok());
    let account = UserLoginRequest { account: "ALICE".to_string(), password: String::new() };
    assert_eq!(login_account(&account), "alice");
    let e = new_email(3, "a@b.c".to_string(), true);
    assert!(!e.verified);
    assert!(new_email(3, "a@b.c".to_string(), false).verified);
}

#[test]
fn profile_and_password_changes() {
    let operator = user_with_hash(hash_password("old".to_string()));
    assert!(matches!(
        delete_user_profile(&operator, DeleteUserProfileRequest { password: "old".to_string() }),
        Some(Ok(()))
    ));
    assert_eq!(
        failure(
            delete_user_profile(&operator, DeleteUserProfileRequest { password: "bad".to_string() })
                .unwrap()
        ),
        (400, "password_invalid".to_string())
    );
    let changed = update_user_profile_password(
        &operator,
        UpdateUserProfilePasswordRequest {
            old_password: "old".to_string(),
            new_password: "new".to_string(),
        },
    );
    let hash = match changed {
        Some(Ok(h)) => h,
        _ => panic!("expected a new hash"),
    };
    assert!(verify_password("new".to_string(), hash));
    assert_eq!(
        failure(
            update_user_profile_password(
                &operator,
                UpdateUserProfilePasswordRequest {
                    old_password: "bad".to_string(),
                    new_password: "new".to_string(),
                },
            )
            .unwrap()
        ),
        (400, "invalid".to_string())
    );
    assert!(authenticate("x".to_string(), "not a hash".to_string(), "f").is_none());
    assert!(get_user_profile(Some(operator)).is_ok());
    assert_eq!(failure(get_user_profile(None)), (404, String::new()));
}

#[test]
fn mail_verification() {
    assert_eq!(normalize_email("Bob@Example.com"), "bob@example.com");
    assert_eq!(failure(check_email_enabled(false)), (400, "email_disabled".to_string()));
    assert_eq!(email_code_key("a@b.c"), "mailbox:a@b.c:code");
    assert_eq!(email_buffer_key("a@b.c"), "mailbox:a@b.c:buffer");
    let code = new_email_code();
    assert_eq!(code.chars().count(), 21);
    assert!(code.chars().all(|c| c.is_ascii_alphanumeric() || c == '_' || c == '-'));
    assert!(check_email_code(Some(code.clone()), &code).is_ok());
    assert_eq!(
        failure(check_email_code(Some(code.clone()), &"nope".to_string())),
        (400, "email_code_incorrect".to_string())
    );
    assert_eq!(
        failure(check_email_code(None, &code)),
        (400, "email_code_expired".to_string())
    );
    assert_eq!(
        failure(check_send_interval(true)),
        (400, "email_send_too_frequently".to_string())
    );
    assert!(check_send_interval(false).is_ok());

    let template = "<html><head><title>Welcome</title></head><body>Hi %USER%, code %CODE%. %CODE%</body></html>";
    let mail = verification_mail(template, "XYZ", "Alice", "a@b.c");
    assert_eq!(mail.subject, "Welcome");
    assert_eq!(
        mail.body,
        "<html><head><title>Welcome</title></head><body>Hi Alice, code XYZ. XYZ</body></html>"
    );
    assert_eq!(mail.name, "Alice");
    assert_eq!(mail.email, "a@b.c");
    let untitled = verification_mail("<p>%CODE%</p>", "1", "B", "b@c.d");
    assert_eq!(untitled.subject, "Verify Your Email");
    assert_eq!(untitled.body, "<p>1</p>");
    assert_eq!(extract_title("<title>A &amp; B</title>"), Some("A &amp; B".to_string()));
}

#[test]
fn address_ownership() {
    let mine = |verified: bool| Email { user_id: 3, email: "a@b.c".to_string(), verified };
    assert!(check_unverified_email(Some(mine(false)), 3).is_ok());
    assert_eq!(
        failure(check_unverified_email(None, 3)),
        (400, "email_not_found".to_string())
    );
    assert_eq!(
        failure(check_unverified_email(Some(mine(false)), 4)),
        (403, "email_not_found".to_string())
    );
    assert_eq!(
        failure(check_unverified_email(Some(mine(true)), 3)),
        (400, "email_already_verified".to_string())
    );
}

#[test]
fn password_reset() {
    assert_eq!(failure(forget_user(None)), (400, "user_not_found".to_string()));
    assert!(forget_user(Some(user_with_hash(String::new()))).is_ok());
    assert_eq!(forget_code_key("a@b.c"), "email:a@b.c:code");
    assert_eq!(forget_buffer_key("a@b.c"), "email:a@b.c:buffer");
    assert_eq!(reset_subject(), "Reset Password");
}

#[test]
fn envelope_profile_rules() {
    let body = normalize_profile_update(UpdateUserProfileRequest {
        nickname: Some("A".to_string()),
        email: Some("New@Example.com".to_string()),
        description: None,
    });
    assert_eq!(body.email, Some("new@example.com".to_string()));
    assert_eq!(body.nickname, Some("A".to_string()));
    let operator = user_with_hash(String::new());
    assert!(!profile_verified(&Some("new@example.com".to_string()), &operator));
    assert!(profile_verified(&Some("alice@example.com".to_string()), &operator));
    assert!(profile_verified(&None, &operator));
    let (name, email) = deleted_account_names(&operator);
    assert_eq!(name, "[DELETED]_alice");
    assert_eq!(email, "deleted_alice@example.com@del.cdsctf");
    assert_eq!(user_avatar_dir(3), "users/3/avatar");
    assert_eq!(user_avatar_path(3), "users/3");
    assert_eq!(failure(check_not_verified(&operator)), (400, "email_already_verified".to_string()));
}

#[test]
fn public_profiles_and_avatars() {
    let mut u = user_with_hash(String::new());
    assert_eq!(failure(get_user(None)), (404, String::new()));
    assert!(get_user(Some(user_with_hash(String::new()))).is_ok());
    assert_eq!(failure(get_user_avatar(None)), (404, "user_not_found".to_string()));
    assert_eq!(
        failure(get_user_avatar(Some(user_with_hash(String::new())))),
        (404, "avatar_not_found".to_string())
    );
    u.avatar_hash = Some("abc".to_string());
    assert_eq!(get_user_avatar(Some(u)).ok(), Some("/api/media?hash=abc".to_string()));
}

#[test]
fn notes() {
    let public = ChallengeDetail { id: 1, public: true, has_instance: false, has_flag: true };
    assert!(check_note_challenge(&public).is_ok());
    let hidden = ChallengeDetail { public: false, ..public };
    assert_eq!(failure(check_note_challenge(&hidden)), (403, String::new()));
    let body = || SaveMyNoteRequest { content: "hint".to_string(), public: true, challenge_id: 1 };
    match save_my_note(Some(Note { id: 8, user_id: 3, challenge_id: 1 }), body(), 3) {
        NoteWrite::Update { id, content, public } => {
            assert_eq!((id, content.as_str(), public), (8, "hint", true))
        }
        _ => panic!("expected an update"),
    }
    match save_my_note(None, body(), 3) {
        NoteWrite::Create { content, public, challenge_id, user_id } => {
            assert_eq!((content.as_str(), public, challenge_id, user_id), ("hint", true, 1, 3))
        }
        _ => panic!("expected a new note"),
    }
}

#[test]
fn field_rules() {
    let reg = |username: &str, email: &str| UserRegisterRequest {
        name: "n".to_string(),
        username: username.to_string(),
        email: email.to_string(),
        password: "p".to_string(),
    };
    assert!(reg("abc", "a@b.c").validate());
    assert!(reg("äöü", "email@[127.0.0.1]").validate());
    assert!(reg("a234567890123456789b", "x@y").validate());
    assert!(!reg("ab", "a@b.c").validate());
    assert!(!reg("a2345678901234567890c", "a@b.c").validate());
    assert!(!reg("abc", "abc").validate());
    assert!(!reg("abc", "a @x.cz").validate());
    assert!(UserAddEmailRequest { email: "email@here.com".to_string() }.validate());
    assert!(!UserAddEmailRequest { email: "abc@".to_string() }.validate());
    let update = |email: Option<&str>| UpdateUserProfileRequest {
        nickname: None,
        email: email.map(|e| e.to_string()),
        description: None,
    };
    assert!(update(None).validate());
    assert!(update(Some("a@b.c")).validate());
    assert!(!update(Some("nope")).validate());
}
