use cds_web::util::media::build_challenge_attachment_path;
use cds_web::util::text::{
    format_id, i64_to_string, parse_i64, replace_all, split_char, u64_to_string,
};
use cds_web::router::api::user::me::email::normalize_email;

#[test]
fn integers_render_as_display_does() {
    for n in [0i64, 7, 10, 42, -1, -305, i64::MAX, i64::MIN] {
        assert_eq!(i64_to_string(n), format!("{}", n));
    }
    assert_eq!(u64_to_string(u64::MAX), u64::MAX.to_string());
}

#[test]
fn integers_parse_as_std_does() {
    for text in ["0", "12", "+12", "-12", "-0", "", "-", "+", "1a", " 1", "9223372036854775807",
        "9223372036854775808", "-9223372036854775808", "-9223372036854775809", "0007"] {
        assert_eq!(parse_i64(text), text.parse::<i64>().ok(), "{:?}", text);
    }
}

#[test]
fn rendered_integers_parse_back() {
    for n in [0i64, 1, -1, 123456789, i64::MAX, i64::MIN] {
        assert_eq!(parse_i64(&i64_to_string(n)), Some(n));
    }
}

#[test]
fn replace_matches_std() {
    let cases = [
        ("Hello %USER%, code %CODE%", "%CODE%", "abc"),
        ("%CODE%%CODE%", "%CODE%", "x"),
        ("aaaa", "aa", "b"),
        ("no match", "zz", "y"),
        ("", "a", "b"),
        ("ab-cd-", "-", ""),
    ];
    for (s, p, r) in cases {
        assert_eq!(replace_all(s, p, r), s.replace(p, r));
    }
}

#[test]
fn split_matches_std() {
    for s in ["", "a", "a,b", ",a,,b,", "-name,created_at"] {
        let ours = split_char(s, ',');
        let theirs: Vec<String> = s.split(',').map(|x| x.to_string()).collect();
        assert_eq!(ours, theirs);
    }
}

#[test]
fn keys_and_paths() {
    assert_eq!(format_id("team:", 5, ":invite"), "team:5:invite");
    assert_eq!(build_challenge_attachment_path(12), "challenges/12/attachments");
    assert_eq!(build_challenge_attachment_path(-3), "challenges/-3/attachments");
    assert_eq!(normalize_email("Alice@Example.COM"), "alice@example.com");
    assert_eq!(normalize_email("ÄÖ@X.DE"), "äö@x.de");
}
