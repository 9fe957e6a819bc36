use blog_user::models::User;
use blog_user::users::{BaseUser, UserResponse};

#[test]
fn blank_user_is_unstored() {
    let u = User::new();
    assert_eq!(*u.get_id(), -1);
    assert!(u.username.is_empty());
    assert!(u.password.is_empty());
    assert!(u.get_createted_at().nanos < 1_000_000_000);
    assert!(u.get_createted_at().secs > 1_600_000_000);
}

#[test]
fn base_user_defaults() {
    let b = BaseUser::new();
    assert_eq!(*b.get_id(), -1);
    assert!(b.username.is_empty());
    assert!(b.password.is_empty());
}

#[test]
fn user_response_defaults() {
    let r = UserResponse::new();
    assert_eq!(*r.get_id(), -1);
    assert!(r.username.is_empty());
    assert!(r.get_createted_at().secs > 1_600_000_000);
}
