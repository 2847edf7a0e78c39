use blog_server::error::AppError;
use blog_server::extractor::AuthUser;
use blog_server::models::{CreatePostRequest, PostWithAuthor, UpdatePostRequest, UserRole};
use blog_server::policy::Action;
use blog_server::post_handler::{
    has_post_updates, new_post, post_by_id_response, post_mutation_guard, post_update_result,
};
use blog_server::user_handler::StoreWriteOutcome;

#[test]
fn new_post_is_authored_by_the_caller_at_now() {
    let req = CreatePostRequest {
        title: "Hello world".to_string(),
        content: "A first post, long enough.".to_string(),
    };
    let post = new_post("author-hex-id".to_string(), &req, 777);
    assert!(post.id.is_none());
    assert_eq!(post.author_id, "author-hex-id");
    assert_eq!(post.title, "Hello world");
    assert_eq!(post.content, "A first post, long enough.");
    assert_eq!(post.created_at, 777);
    assert_eq!(post.updated_at, 777);
}

#[test]
fn mutation_guard_follows_the_policy() {
    let owner = AuthUser { user_id: "a".to_string(), role: UserRole::User };
    let stranger = AuthUser { user_id: "b".to_string(), role: UserRole::User };
    let admin = AuthUser { user_id: "b".to_string(), role: UserRole::Admin };
    assert!(post_mutation_guard(&owner, Action::Update, "a").is_ok());
    assert!(post_mutation_guard(&owner, Action::Delete, "a").is_ok());
    assert_eq!(post_mutation_guard(&stranger, Action::Update, "a").unwrap_err(), AppError::Forbidden);
    assert_eq!(post_mutation_guard(&stranger, Action::Delete, "a").unwrap_err(), AppError::Forbidden);
    assert!(post_mutation_guard(&admin, Action::Update, "a").is_ok());
    assert!(post_mutation_guard(&admin, Action::Delete, "a").is_ok());
}

#[test]
fn empty_edit_carries_no_update() {
    assert!(!has_post_updates(&UpdatePostRequest { title: None, content: None }));
    assert!(has_post_updates(&UpdatePostRequest { title: Some("t".to_string()), content: None }));
    assert!(has_post_updates(&UpdatePostRequest { title: None, content: Some("c".to_string()) }));
}

#[test]
fn post_update_outcomes() {
    assert_eq!(
        post_update_result(&StoreWriteOutcome::Applied { matched: 0 }).unwrap_err(),
        AppError::NotFound
    );
    assert!(post_update_result(&StoreWriteOutcome::Applied { matched: 1 }).is_ok());
    assert_eq!(
        post_update_result(&StoreWriteOutcome::Failed).unwrap_err(),
        AppError::InternalServerError
    );
}

#[test]
fn missing_post_lookup_is_not_found() {
    assert_eq!(post_by_id_response(None).unwrap_err(), AppError::NotFound);
    let row = PostWithAuthor {
        id: "post-one".to_string(),
        title: "t".to_string(),
        content: "c".to_string(),
        author_name: "alice".to_string(),
        created_at: 5,
    };
    let got = post_by_id_response(Some(row)).unwrap();
    assert_eq!(got.id, "post-one");
    assert_eq!(got.author_name, "alice");
}
