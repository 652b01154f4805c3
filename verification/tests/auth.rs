//! Sign-up and sign-in behaviour against the real bcrypt hashing.

use task_api::error::ServiceError;
use task_api::routes::{sign_up, SignInPayload};
use task_api::user::{UserMutations, UserStore};

const SECRET: &str = "unit-test-signing-secret";

#[test]
fn sign_up_then_sign_in_succeeds() {
    let mut store = UserStore::new();
    let created = UserMutations::create(&mut store, "alice".to_string(), "secret1".to_string())
        .expect("fresh username must sign up");
    assert_eq!(created.id, 1);
    assert_eq!(created.username, "alice");
    // The stored digest is never the plaintext.
    assert_ne!(created.password, "secret1");

    let signed_in = UserMutations::sign_in(
        &store,
        "alice".to_string(),
        "secret1".to_string(),
        SECRET,
        1_000,
    )
    .expect("sign-in with the same credentials must succeed");
    assert_eq!(signed_in.user_id, 1);
    assert_eq!(signed_in.username, "alice");
    assert_eq!(signed_in.token_type, "Bearer");
    assert!(!signed_in.token.is_empty());
}

#[test]
fn duplicate_username_always_fails() {
    let mut store = UserStore::new();
    UserMutations::create(&mut store, "alice".to_string(), "secret1".to_string()).unwrap();
    // Same username, same password.
    let again = UserMutations::create(&mut store, "alice".to_string(), "secret1".to_string());
    assert_eq!(again.unwrap_err(), ServiceError::Conflict);
    // Same username, different password.
    let other = UserMutations::create(&mut store, "alice".to_string(), "different9".to_string());
    assert_eq!(other.unwrap_err(), ServiceError::Conflict);
}

#[test]
fn duplicate_username_route_answers_401() {
    let mut store = UserStore::new();
    let first = sign_up(
        &mut store,
        SignInPayload { username: "alice".to_string(), password: "secret1".to_string() },
    );
    assert_eq!(first.status, 200);
    let p = first.data.expect("created user echoed");
    assert_eq!(p.id, 1);
    assert_eq!(p.username, "alice");

    let second = sign_up(
        &mut store,
        SignInPayload { username: "alice".to_string(), password: "secret2".to_string() },
    );
    assert_eq!(second.status, 401);
    assert!(second.data.is_none());
}

#[test]
fn short_credentials_rejected() {
    let mut store = UserStore::new();
    let r = sign_up(
        &mut store,
        SignInPayload { username: "bob".to_string(), password: "secret1".to_string() },
    );
    assert_eq!(r.status, 400);
    let r = sign_up(
        &mut store,
        SignInPayload { username: "bobby".to_string(), password: "pw".to_string() },
    );
    assert_eq!(r.status, 400);
}

#[test]
fn sign_in_wrong_password_fails() {
    let mut store = UserStore::new();
    UserMutations::create(&mut store, "alice".to_string(), "secret1".to_string()).unwrap();
    let r = UserMutations::sign_in(
        &store,
        "alice".to_string(),
        "wrongpw".to_string(),
        SECRET,
        1_000,
    );
    assert_eq!(r.unwrap_err(), ServiceError::Unauthenticated);
}

#[test]
fn sign_in_unknown_user_fails() {
    let store = UserStore::new();
    let r = UserMutations::sign_in(
        &store,
        "nobody".to_string(),
        "secret1".to_string(),
        SECRET,
        1_000,
    );
    assert_eq!(r.unwrap_err(), ServiceError::Unauthenticated);
}

#[test]
fn user_ids_increment_from_one() {
    let mut store = UserStore::new();
    let a = UserMutations::create(&mut store, "alice".to_string(), "secret1".to_string()).unwrap();
    let b = UserMutations::create(&mut store, "bobby".to_string(), "secret2".to_string()).unwrap();
    assert_eq!(a.id, 1);
    assert_eq!(b.id, 2);
}
