use cds_web::router::api::idp::idp_id::{
    check_provider_registration, decode_pending_record, encode_pending_record, login_step,
    pending_auth_key, pending_read, pending_write, IdpLoginStep, PENDING_TTL,
};
use cds_web::router::api::submission::{own_submissions_query, ListSubmissionsRequest};
use cds_web::router::api::user::forget::reset_writes;
use cds_web::router::api::user::me::email::{
    accept_code, email_code_key, verification_writes, EMAIL_BUFFER_TTL, EMAIL_CODE_TTL,
};
use cds_web::util::cache::{CacheRead, CacheValue, CacheWrite};
use cds_web::util::string_map::StringMap;

fn plain(w: &CacheWrite) -> (String, Option<String>, u64) {
    let value = match &w.value {
        CacheValue::Text(t) => Some(t.clone()),
        CacheValue::Mark => None,
    };
    (w.key.clone(), value, w.ttl)
}

#[test]
fn verification_mail_leaves_code_then_mark() {
    let w: Vec<_> = verification_writes("a@b.c", "XYZ").iter().map(plain).collect();
    assert_eq!(
        w,
        vec![
            ("mailbox:a@b.c:code".to_string(), Some("XYZ".to_string()), 3600),
            ("mailbox:a@b.c:buffer".to_string(), None, 60),
        ]
    );
    assert_eq!((EMAIL_CODE_TTL, EMAIL_BUFFER_TTL), (3600, 60));
}

#[test]
fn reset_mail_leaves_code_then_mark() {
    let w: Vec<_> = reset_writes("a@b.c", "123").iter().map(plain).collect();
    assert_eq!(
        w,
        vec![
            ("email:a@b.c:code".to_string(), Some("123".to_string()), 3600),
            ("email:a@b.c:buffer".to_string(), None, 60),
        ]
    );
}

#[test]
fn pending_identity_is_taken_once() {
    match pending_read("tok") {
        CacheRead::Take(k) => assert_eq!(k, "idp_pending:tok"),
        CacheRead::Get(_) => panic!("a registration takes its pending identity"),
    }
    let w = pending_write("tok", 1, "ident");
    assert_eq!(plain(&w), ("idp_pending:tok".to_string(), Some("1:ident".to_string()), 600));
    assert_eq!(PENDING_TTL, 600);
}

#[test]
fn provider_sign_up_needs_registration() {
    assert!(check_provider_registration(true).is_ok());
    match check_provider_registration(false) {
        Err(e) => {
            let r = e.into_response();
            assert_eq!((r.status, r.message.as_str()), (403, "registration_disabled"));
        }
        Ok(()) => panic!("expected a refusal"),
    }
}

#[test]
fn submissions_listed_are_the_callers() {
    let q = own_submissions_query(
        ListSubmissionsRequest {
            id: None,
            user_id: Some(9),
            team_id: Some(None),
            game_id: None,
            challenge_id: Some(4),
            status: None,
            page: Some(2),
            size: None,
            sorts: None,
        },
        3,
    );
    assert_eq!(q.user_id, Some(3));
    assert_eq!(q.team_id, Some(None));
    assert_eq!(q.challenge_id, Some(4));
    assert_eq!(q.page, Some(2));
}

#[test]
fn maps_hold_each_key_once() {
    let pairs = |ks: &[&str]| ks.iter().map(|k| (k.to_string(), "v".to_string())).collect::<Vec<_>>();
    assert!(StringMap::has_unique_keys(&pairs(&[])));
    assert!(StringMap::has_unique_keys(&pairs(&["a", "b", "c"])));
    assert!(!StringMap::has_unique_keys(&pairs(&["a", "b", "a"])));
    let m = StringMap::new(pairs(&["x", "y"]));
    assert_eq!(m.entries().len(), 2);
    assert_eq!(m.get("y"), Some("v".to_string()));
}

#[test]
fn pending_record_reads_back() {
    assert_eq!(encode_pending_record(42, "user:7"), "42:user:7");
    assert_eq!(decode_pending_record("42:user:7"), Some((42, "user:7".to_string())));
    assert_eq!(decode_pending_record(&encode_pending_record(-5, "")), Some((-5, String::new())));
    assert_eq!(decode_pending_record("42"), None);
    assert_eq!(decode_pending_record("4x:k"), None);
    assert_eq!(decode_pending_record(":k"), None);
}

#[test]
fn sign_in_of_a_bound_identity() {
    match login_step(3, "key", StringMap::new(Vec::new()), Some(11), false) {
        Ok(IdpLoginStep::SignIn(u)) => assert_eq!(u, 11),
        _ => panic!("a bound identity signs its account in"),
    }
}

#[test]
fn sign_in_of_an_unbound_identity_then_registration() {
    let data = StringMap::new(vec![("nick".to_string(), "ann".to_string())]);
    let (pending, write) = match login_step(3, "key-9", data, None, true) {
        Ok(IdpLoginStep::Register { pending, write }) => (pending, write),
        _ => panic!("an unbound identity is left pending"),
    };
    assert_eq!(pending.idp_id, 3);
    assert_eq!(pending.token.chars().count(), 21);
    assert_eq!(pending.data.entries().len(), 1);
    let (key, value, ttl) = plain(&write);
    assert_eq!(key, format!("idp_pending:{}", pending.token));
    assert_eq!(ttl, 600);
    assert_eq!(pending_auth_key(value).ok(), Some("key-9".to_string()));
    match login_step(3, "key-9", StringMap::new(Vec::new()), None, false) {
        Err(e) => {
            let r = e.into_response();
            assert_eq!((r.status, r.message.as_str()), (403, "registration_disabled"));
        }
        Ok(_) => panic!("expected a refusal"),
    }
}

#[test]
fn an_accepted_code_is_taken_out() {
    let key = email_code_key("a@b.c");
    match accept_code(key.clone(), Some("XYZ".to_string()), &"XYZ".to_string()) {
        Ok(CacheRead::Take(k)) => assert_eq!(k, "mailbox:a@b.c:code"),
        _ => panic!("an accepted code is deleted"),
    }
    match accept_code(key.clone(), Some("XYZ".to_string()), &"ABC".to_string()) {
        Err(e) => assert_eq!(e.into_response().message, "email_code_incorrect"),
        Ok(_) => panic!("expected a refusal"),
    }
    match accept_code(key, None, &"XYZ".to_string()) {
        Err(e) => assert_eq!(e.into_response().message, "email_code_expired"),
        Ok(_) => panic!("expected a refusal"),
    }
}
