use plant_api::auth::{auth_error_of, complete_registration, login, register, AuthError};
use plant_api::store::{Store, StoreError};
use plant_api::token::{TokenCodec, TokenError};

fn codec() -> TokenCodec {
    TokenCodec::new(b"secret".to_vec())
}

#[test]
fn register_then_login_gives_token_for_email() {
    let mut store = Store::new();
    let codec = codec();
    let registered = register(&mut store, &codec, "ann@example.com", "hunter2", 1_000).unwrap();
    let claims = codec.verify(&registered, 1_001).unwrap();
    assert_eq!(claims.sub, "ann@example.com");
    let token = login(&store, &codec, "ann@example.com", "hunter2", 2_000).unwrap();
    let claims = codec.verify(&token, 2_001).unwrap();
    assert_eq!(claims.sub, "ann@example.com");
    assert_eq!(claims.iat, 2_000);
    assert_eq!(claims.exp, 5_600);
}

#[test]
fn register_stores_a_hash_not_the_password() {
    let mut store = Store::new();
    register(&mut store, &codec(), "ann@example.com", "hunter2", 1_000).unwrap();
    assert_eq!(store.users().len(), 1);
    assert_eq!(store.users()[0].id, 1);
    assert_eq!(store.users()[0].email, "ann@example.com");
    assert_ne!(store.users()[0].password_hash, "hunter2");
    assert!(store.users()[0].password_hash.starts_with("$argon2"));
}

#[test]
fn register_existing_email_fails_without_second_row() {
    let mut store = Store::new();
    let codec = codec();
    register(&mut store, &codec, "ann@example.com", "hunter2", 1_000).unwrap();
    let second = register(&mut store, &codec, "ann@example.com", "other", 1_000);
    assert_eq!(second, Err(AuthError::UserAlreadyExists));
    assert_eq!(store.users().len(), 1);
}

#[test]
fn email_match_is_case_sensitive() {
    let mut store = Store::new();
    let codec = codec();
    register(&mut store, &codec, "ann@example.com", "pw", 1_000).unwrap();
    assert!(register(&mut store, &codec, "Ann@example.com", "pw", 1_000).is_ok());
    assert_eq!(store.users().len(), 2);
    assert_eq!(store.users()[1].id, 2);
}

#[test]
fn login_wrong_password_and_unknown_email_look_the_same() {
    let mut store = Store::new();
    let codec = codec();
    register(&mut store, &codec, "ann@example.com", "hunter2", 1_000).unwrap();
    let wrong = login(&store, &codec, "ann@example.com", "hunter3", 1_000);
    let unknown = login(&store, &codec, "bob@example.com", "hunter2", 1_000);
    assert_eq!(wrong, Err(AuthError::InvalidCredentials));
    assert_eq!(unknown, Err(AuthError::InvalidCredentials));
}

#[test]
fn login_with_malformed_stored_hash_is_invalid_credentials() {
    let mut store = Store::new();
    store.insert_user("ann@example.com", "not a phc string".to_string()).unwrap();
    let r = login(&store, &codec(), "ann@example.com", "not a phc string", 1_000);
    assert_eq!(r, Err(AuthError::InvalidCredentials));
}

#[test]
fn login_when_token_cannot_be_issued_is_internal_error() {
    let mut store = Store::new();
    let codec = codec();
    register(&mut store, &codec, "ann@example.com", "pw", 1_000).unwrap();
    let r = login(&store, &codec, "ann@example.com", "pw", i64::MAX);
    assert_eq!(r, Err(AuthError::InternalError));
}

#[test]
fn register_when_token_cannot_be_issued_leaves_no_row() {
    let mut store = Store::new();
    let r = register(&mut store, &codec(), "ann@example.com", "pw", i64::MAX);
    assert_eq!(r, Err(AuthError::InternalError));
    assert_eq!(store.users().len(), 0);
}

#[test]
fn complete_registration_outcomes() {
    let mut store = Store::new();
    let no_hash = complete_registration(&mut store, "a@x", None, Ok("t".to_string()));
    assert_eq!(no_hash, Err(AuthError::InternalError));
    let no_token = complete_registration(&mut store, "a@x", Some("h".to_string()), Err(TokenError::IssueFailed));
    assert_eq!(no_token, Err(AuthError::InternalError));
    assert_eq!(store.users().len(), 0);
    let ok = complete_registration(&mut store, "a@x", Some("h".to_string()), Ok("t".to_string()));
    assert_eq!(ok, Ok("t".to_string()));
    assert_eq!(store.users()[0].password_hash, "h");
    let again = complete_registration(&mut store, "a@x", Some("h".to_string()), Ok("t".to_string()));
    assert_eq!(again, Err(AuthError::UserAlreadyExists));
    assert_eq!(store.users().len(), 1);
}

#[test]
fn store_errors_map_to_auth_errors() {
    assert_eq!(auth_error_of(StoreError::UniqueViolation), AuthError::UserAlreadyExists);
    assert_eq!(auth_error_of(StoreError::Other), AuthError::InternalError);
}

#[test]
fn auth_error_messages() {
    assert_eq!(AuthError::UserAlreadyExists.message(), "User already exists");
    assert_eq!(AuthError::InvalidCredentials.message(), "Invalid credentials");
    assert_eq!(AuthError::InternalError.message(), "Internal error");
}

#[test]
fn user_lookup_by_email() {
    let mut store = Store::new();
    store.insert_user("ann@example.com", "h1".to_string()).unwrap();
    store.insert_user("bob@example.com", "h2".to_string()).unwrap();
    let bob = store.get_user_by_email("bob@example.com").unwrap();
    assert_eq!(bob.id, 2);
    assert_eq!(bob.email, "bob@example.com");
    assert!(store.get_user_by_email("eve@example.com").is_none());
    assert_eq!(store.password_hash_of("ann@example.com").unwrap(), "h1");
    assert_eq!(store.insert_user("ann@example.com", "h3".to_string()), Err(StoreError::UniqueViolation));
}

#[test]
fn login_with_stored_hash_outcomes() {
    let codec = codec();
    let hash = plant_api::auth::new_password_hash("pw").unwrap();
    assert_ne!(hash, "pw");
    let token = plant_api::auth::login_with(&codec, Some(&hash), "a@x", "pw", 100).unwrap();
    assert_eq!(codec.verify(&token, 101).unwrap().sub, "a@x");
    assert_eq!(plant_api::auth::login_with(&codec, Some(&hash), "a@x", "bad", 100), Err(AuthError::InvalidCredentials));
    assert_eq!(plant_api::auth::login_with(&codec, None, "a@x", "pw", 100), Err(AuthError::InvalidCredentials));
    assert_eq!(plant_api::auth::login_with(&codec, Some(&hash), "a@x", "pw", i64::MAX), Err(AuthError::InternalError));
}
