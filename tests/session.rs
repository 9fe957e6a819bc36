use blog_user::errors::SessionError;
use blog_user::models::NewUserSession;
use blog_user::session::{token_from_entropy, SessionIssuer};
use rand::Rng;

#[test]
fn session_created() {
    let mut rng = rand::thread_rng();
    let key: [u8; 16] = rng.gen();
    let mut issuer = SessionIssuer::new();
    let s = issuer.issue(42, &key).unwrap();
    assert_eq!(s.user_id, 42);
    assert_eq!(s.session_key.len(), 32);
    assert!(issuer.is_active(&s.session_key));
}

#[test]
fn token_spells_entropy_in_hex() {
    let bytes: [u8; 16] = [
        0x00, 0x01, 0x0f, 0x10, 0x7f, 0x80, 0xab, 0xcd, 0xef, 0xff, 0x12, 0x34, 0x56, 0x78, 0x9a,
        0xbc,
    ];
    assert_eq!(token_from_entropy(&bytes), "00010f107f80abcdefff123456789abc");
    assert_eq!(token_from_entropy(&[0u8; 16]), "00000000000000000000000000000000");
    assert_eq!(token_from_entropy(&[0xffu8; 16]), "ffffffffffffffffffffffffffffffff");
}

#[test]
fn two_issues_give_distinct_tokens() {
    let mut issuer = SessionIssuer::new();
    let a = issuer.issue(1, &[1u8; 16]).unwrap();
    let b = issuer.issue(1, &[2u8; 16]).unwrap();
    assert_ne!(a.session_key, b.session_key);
}

#[test]
fn reused_entropy_is_refused() {
    let mut issuer = SessionIssuer::new();
    issuer.issue(1, &[9u8; 16]).unwrap();
    assert!(matches!(issuer.issue(2, &[9u8; 16]), Err(SessionError::TokenInUse)));
}

#[test]
fn ending_a_session() {
    let mut issuer = SessionIssuer::new();
    let s = issuer.issue(5, &[3u8; 16]).unwrap();
    assert!(issuer.is_active(&s.session_key));
    assert_eq!(issuer.end(&s.session_key), Ok(()));
    assert!(!issuer.is_active(&s.session_key));
    assert_eq!(issuer.end(&s.session_key), Err(SessionError::AlreadyEnded));
    assert_eq!(issuer.end("no-such-token"), Err(SessionError::UnknownSession));
}

#[test]
fn ended_token_is_not_reissued() {
    let mut issuer = SessionIssuer::new();
    let s = issuer.issue(5, &[4u8; 16]).unwrap();
    issuer.end(&s.session_key).unwrap();
    assert!(matches!(issuer.issue(6, &[4u8; 16]), Err(SessionError::TokenInUse)));
}

#[test]
fn new_user_session_holds_its_fields() {
    let s = NewUserSession::new(String::from("abc"), 9);
    assert_eq!(s.session_key, "abc");
    assert_eq!(s.user_id, 9);
}
