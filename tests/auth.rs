use blog_user::auth::{password_verdict, Auth};
use blog_user::clock::Timestamp;
use blog_user::errors::{AuthError, HashError};
use blog_user::forms::{UserLogin, UserSignup};
use blog_user::hasher::{hash, verify};
use blog_user::models::User;
use blog_user::users::BaseUser;

// A cost-4 bcrypt hash of "correctbatteryhorsestapler".
const STAPLER_HASH: &str = "$2b$04$EGdrhbKUv8Oc9vGiXX0HQOxSg445d458Muh7DAHskb6QbtCvdxcie";

fn record(id: i32, username: &str, hashed: &str) -> User {
    User {
        id,
        username: String::from(username),
        password: String::from(hashed),
        created_at: Timestamp { secs: 1_626_558_342, nanos: 0 },
    }
}

fn login(username: &str, password: &str) -> UserLogin {
    UserLogin { username: String::from(username), password: String::from(password) }
}

#[test]
fn user_login_authenticated() {
    let stored = record(13, "cyobero", &hash("password123").unwrap());
    let usr = UserLogin {
        username: String::from("cyobero"),
        password: String::from("password123"),
    };
    let r = usr.authenticate(&Some(stored));
    assert!(r.is_ok());
    let u = r.unwrap();
    assert_eq!(u.id, 13);
    assert_eq!(u.username, "cyobero");
}

#[test]
fn user_already_exists_error() {
    let usr = UserSignup {
        username: String::from("cyobero"),
        password: String::from("password123"),
        password_confirm: String::from("password123"),
    };
    let stored = record(13, "cyobero", STAPLER_HASH);
    assert!(usr.verify_new_username(&Some(stored)).is_err());
}

#[test]
fn user_not_exist_error() {
    let data = UserLogin {
        username: String::from("iamnotreal"),
        password: String::from("password123"),
    };
    assert!(data.authenticate(&None).is_err());
    assert_eq!(data.authenticate(&None).unwrap_err(), AuthError::UserNotFound);
}

#[test]
fn existing_username_cannot_sign_up() {
    let usr = login("existing_user", "password123");
    let stored = record(3, "existing_user", STAPLER_HASH);
    assert_eq!(usr.verify_new_username(&Some(stored)), Err(AuthError::UserAlreadyExists));
}

#[test]
fn fresh_username_can_sign_up() {
    let usr = login("fresh_user_123", "password123");
    assert_eq!(usr.verify_new_username(&None), Ok(()));
    let other = record(3, "existing_user", STAPLER_HASH);
    assert_eq!(usr.verify_new_username(&Some(other)), Ok(()));
}

#[test]
fn right_password_logs_in() {
    let usr = login("stapler", "correctbatteryhorsestapler");
    let r = usr.authenticate(&Some(record(7, "stapler", STAPLER_HASH))).unwrap();
    assert_eq!(r.id, 7);
    assert_eq!(r.username, "stapler");
}

#[test]
fn wrong_password_is_invalid() {
    let usr = login("stapler", "wrongpassword");
    let r = usr.authenticate(&Some(record(7, "stapler", STAPLER_HASH)));
    assert_eq!(r.unwrap_err(), AuthError::InvalidPassword);
}

#[test]
fn record_of_another_user_is_not_found() {
    let usr = login("someone", "correctbatteryhorsestapler");
    let r = usr.authenticate(&Some(record(7, "stapler", STAPLER_HASH)));
    assert_eq!(r.unwrap_err(), AuthError::UserNotFound);
}

#[test]
fn malformed_stored_hash_is_invalid_password() {
    let usr = login("stapler", "correctbatteryhorsestapler");
    let r = usr.authenticate(&Some(record(7, "stapler", "not-a-bcrypt-hash")));
    assert_eq!(r.unwrap_err(), AuthError::InvalidPassword);
}

#[test]
fn verify_user_returns_stored_record() {
    let usr = login("stapler", "whatever");
    let b = usr.verify_user(&Some(record(7, "stapler", STAPLER_HASH))).unwrap();
    assert_eq!(b.id, 7);
    assert_eq!(b.username, "stapler");
    assert_eq!(b.password, STAPLER_HASH);
    assert_eq!(usr.verify_user(&None).unwrap_err(), AuthError::UserNotFound);
}

#[test]
fn verify_password_checks_the_hash() {
    let stored = Some(record(7, "stapler", STAPLER_HASH));
    assert!(login("stapler", "correctbatteryhorsestapler").verify_password(&stored).is_ok());
    assert_eq!(
        login("stapler", "wrong").verify_password(&stored).unwrap_err(),
        AuthError::InvalidPassword
    );
}

#[test]
fn password_verdict_follows_the_hasher() {
    let u = BaseUser { id: 4, username: String::from("abcd"), password: String::from("h") };
    assert_eq!(password_verdict(u.clone(), true).unwrap().id, 4);
    assert_eq!(password_verdict(u, false).unwrap_err(), AuthError::InvalidPassword);
}

#[test]
fn hash_then_verify_accepts() {
    let h = hash("password123").unwrap();
    assert_ne!(h, "password123");
    assert!(h.starts_with("$2b$12$"));
    assert!(verify("password123", &h));
}

#[test]
fn hash_of_other_plaintext_rejects() {
    let h = hash("password124").unwrap();
    assert!(!verify("password123", &h));
}

#[test]
fn hash_refuses_nul() {
    assert_eq!(hash("pass\0word"), Err(HashError::NulInPassword));
}

#[test]
fn verify_known_vectors() {
    assert!(verify("correctbatteryhorsestapler", STAPLER_HASH));
    assert!(!verify("wrong", STAPLER_HASH));
    assert!(!verify("correctbatteryhorsestapler", "$2a$ab$n4Uy0eSnMfvnESYL"));
    assert!(!verify("", ""));
}
