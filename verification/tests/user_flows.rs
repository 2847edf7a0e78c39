use blog_server::auth::{TokenCodec, TOKEN_TTL_SECS};
use blog_server::error::AppError;
use blog_server::extractor::AuthUser;
use blog_server::models::{
    default_role, RegisterUserRequest, UpdateProfileRequest, User, UserRole,
};
use blog_server::passwords::hash_password;
use blog_server::user_handler::{
    auth_body_for, current_user_response, delete_user_guard, delete_user_result, login_decision,
    map_insert_error, new_user_record, profile_update_check, profile_update_result,
    register_precheck, user_list_guard, users_to_responses, StoreWriteOutcome,
};

fn alice_record(password_hash: &str) -> User {
    User {
        id: Some("64b0c8f7a1d2e3f4a5b6c7d8".to_string()),
        username: "alice".to_string(),
        email: "a@x.com".to_string(),
        password: password_hash.to_string(),
        role: UserRole::User,
    }
}

#[test]
fn duplicate_email_registration_is_a_conflict_not_internal() {
    // First registration: no record holds a@x.com yet.
    assert!(register_precheck(0).is_ok());
    // Second registration with the same email (different username): the
    // store already counts one record for it.
    assert_eq!(register_precheck(1).unwrap_err(), AppError::Conflict);
    // A racing duplicate that slips past the pre-check is caught by the
    // store's uniqueness constraint and mapped the same way.
    assert_eq!(map_insert_error(true), AppError::Conflict);
    assert_eq!(map_insert_error(false), AppError::InternalServerError);
}

#[test]
fn registration_never_trusts_the_client_role() {
    let req = RegisterUserRequest {
        username: "mallory".to_string(),
        email: "m@x.com".to_string(),
        password: "hunter22".to_string(),
        role: UserRole::Admin,
    };
    let record = new_user_record(&req, "hashed".to_string());
    assert_eq!(record.role, UserRole::User);
    assert_eq!(record.username, "mallory");
    assert_eq!(record.email, "m@x.com");
    assert_eq!(record.password, "hashed");
    assert!(record.id.is_none());
    assert_eq!(default_role(), UserRole::User);
}

#[test]
fn login_with_wrong_password_is_unauthenticated_not_notfound() {
    let codec = TokenCodec::new("test-secret".to_string());
    let hash = hash_password("correct horse").unwrap();
    let outcome = login_decision(Some(alice_record(&hash)), "wrong pony", &codec, 1000);
    assert_eq!(outcome.unwrap_err(), AppError::WrongCredentials);
}

#[test]
fn login_with_unknown_email_gives_the_same_error() {
    let codec = TokenCodec::new("test-secret".to_string());
    let outcome = login_decision(None, "whatever", &codec, 1000);
    assert_eq!(outcome.unwrap_err(), AppError::WrongCredentials);
}

#[test]
fn login_with_correct_password_issues_a_verifiable_token() {
    let codec = TokenCodec::new("test-secret".to_string());
    let hash = hash_password("correct horse").unwrap();
    let body = login_decision(Some(alice_record(&hash)), "correct horse", &codec, 1000).unwrap();
    assert_eq!(body.token_type, "Bearer");
    assert_eq!(body.user.id, "64b0c8f7a1d2e3f4a5b6c7d8");
    assert_eq!(body.user.username, "alice");
    assert_eq!(body.user.email, "a@x.com");
    assert_eq!(body.user.role, "user");
    let claims = codec.verify(&body.access_token, 1000).unwrap();
    assert_eq!(claims.sub, "64b0c8f7a1d2e3f4a5b6c7d8");
    assert_eq!(claims.role, "user");
    assert_eq!(claims.iat, 1000);
    assert_eq!(claims.exp, 1000 + TOKEN_TTL_SECS);
}

#[test]
fn login_against_record_without_id_is_internal() {
    let codec = TokenCodec::new("test-secret".to_string());
    let hash = hash_password("pw123456").unwrap();
    let mut record = alice_record(&hash);
    record.id = None;
    let outcome = login_decision(Some(record), "pw123456", &codec, 1000);
    assert_eq!(outcome.unwrap_err(), AppError::InternalServerError);
}

#[test]
fn auth_body_carries_the_requested_role_label() {
    let codec = TokenCodec::new("test-secret".to_string());
    let body = auth_body_for(
        "64b0c8f7a1d2e3f4a5b6c7d8",
        "root".to_string(),
        "r@x.com".to_string(),
        UserRole::Admin,
        &codec,
        5000,
    )
    .unwrap();
    assert_eq!(body.user.role, "admin");
    let claims = codec.verify(&body.access_token, 5000).unwrap();
    assert_eq!(claims.role, "admin");
}

#[test]
fn current_user_projection() {
    assert_eq!(current_user_response(None).unwrap_err(), AppError::NotFound);
    let u = alice_record("h");
    let resp = current_user_response(Some(u)).unwrap();
    assert_eq!(resp.id, "64b0c8f7a1d2e3f4a5b6c7d8");
    assert_eq!(resp.username, "alice");
    assert_eq!(resp.email, "a@x.com");
    assert_eq!(resp.role, "user");
    let mut broken = alice_record("h");
    broken.id = None;
    assert_eq!(current_user_response(Some(broken)).unwrap_err(), AppError::InternalServerError);
}

#[test]
fn empty_profile_edit_is_a_bad_request() {
    let empty = UpdateProfileRequest { username: None, email: None };
    assert_eq!(profile_update_check(&empty).unwrap_err(), AppError::BadRequest);
    let some = UpdateProfileRequest { username: Some("al".to_string()), email: None };
    assert!(profile_update_check(&some).is_ok());
}

#[test]
fn profile_update_outcomes() {
    assert_eq!(
        profile_update_result(&StoreWriteOutcome::Applied { matched: 0 }).unwrap_err(),
        AppError::NotFound
    );
    assert!(profile_update_result(&StoreWriteOutcome::Applied { matched: 1 }).is_ok());
    assert_eq!(
        profile_update_result(&StoreWriteOutcome::DuplicateKey).unwrap_err(),
        AppError::Conflict
    );
    assert_eq!(
        profile_update_result(&StoreWriteOutcome::Failed).unwrap_err(),
        AppError::InternalServerError
    );
}

#[test]
fn non_admin_listing_is_forbidden_before_any_store_access() {
    let peer = AuthUser { user_id: "x".to_string(), role: UserRole::User };
    // The guard decides from the identity alone; a denial means the
    // handler returns before it ever queries the store.
    assert_eq!(user_list_guard(&peer).unwrap_err(), AppError::Forbidden);
    let boss = AuthUser { user_id: "x".to_string(), role: UserRole::Admin };
    assert!(user_list_guard(&boss).is_ok());
}

#[test]
fn listing_projects_records_without_password_hashes() {
    let users = vec![
        alice_record("secret-hash"),
        User {
            id: None,
            username: "ghost".to_string(),
            email: "g@x.com".to_string(),
            password: "h2".to_string(),
            role: UserRole::Admin,
        },
    ];
    let out = users_to_responses(&users);
    assert_eq!(out.len(), 2);
    assert_eq!(out[0].id, "64b0c8f7a1d2e3f4a5b6c7d8");
    assert_eq!(out[0].username, "alice");
    assert_eq!(out[0].role, "user");
    assert_eq!(out[1].id, "");
    assert_eq!(out[1].username, "ghost");
    assert_eq!(out[1].role, "admin");
}

#[test]
fn delete_user_guard_orders_its_checks() {
    let peer = AuthUser { user_id: "a".to_string(), role: UserRole::User };
    assert_eq!(delete_user_guard(&peer, "b").unwrap_err(), AppError::Forbidden);
    // A non-admin is forbidden even on itself.
    assert_eq!(delete_user_guard(&peer, "a").unwrap_err(), AppError::Forbidden);
    let boss = AuthUser { user_id: "a".to_string(), role: UserRole::Admin };
    assert_eq!(delete_user_guard(&boss, "a").unwrap_err(), AppError::BadRequest);
    assert!(delete_user_guard(&boss, "b").is_ok());
}

#[test]
fn deleting_a_missing_user_is_not_found() {
    assert_eq!(delete_user_result(0).unwrap_err(), AppError::NotFound);
    assert!(delete_user_result(1).is_ok());
}
