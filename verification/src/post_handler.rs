//! Decision logic of the post handlers: creation, the ownership guard on
//! mutation, and the translation of store outcomes.

use vstd::prelude::*;
use crate::error::AppError;
use crate::extractor::AuthUser;
use crate::models::{CreatePostRequest, Post, PostWithAuthor, UpdatePostRequest};
use crate::policy::{can, spec_allowed, Action, Target};
use crate::user_handler::StoreWriteOutcome;

verus! {

/// The record a post creation inserts: authored by the caller — the
/// author id comes from the verified identity, never from the client —
/// with both instants set to `now`.
pub fn new_post(author_id: String, req: &CreatePostRequest, now: u64) -> (p: Post)
    ensures
        p.id is None,
        p.author_id@ == author_id@,
        p.title@ == req.title@,
        p.content@ == req.content@,
        p.created_at == now,
        p.updated_at == now,
{
    Post {
        id: None,
        author_id,
        title: req.title.clone(),
        content: req.content.clone(),
        created_at: now,
        updated_at: now,
    }
}

/// Guard of a post mutation: consult the access policy for `action` on
/// the post owned by `post_author_id`; denial is the plain permission
/// error.
pub fn post_mutation_guard(identity: &AuthUser, action: Action, post_author_id: &str) -> (r:
    Result<(), AppError>)
    ensures
        forall|t: Target| (t matches Target::Post { author_id } && author_id@ == post_author_id@)
            ==> (r is Ok <==> spec_allowed(*identity, action, t)),
        r matches Err(e) ==> e == AppError::Forbidden,
{
    let target = Target::Post { author_id: post_author_id.to_owned() };
    if can(identity, action, &target) {
        Ok(())
    } else {
        Err(AppError::Forbidden)
    }
}

/// Whether an edit carries any change at all; an empty edit is answered
/// without touching the store.
pub fn has_post_updates(req: &UpdatePostRequest) -> (r: bool)
    ensures
        r == (req.title is Some || req.content is Some),
{
    req.title.is_some() || req.content.is_some()
}

/// The response of a single-post lookup: the joined row when the store
/// found one, a missing-resource error when it did not.
pub fn post_by_id_response(lookup: Option<PostWithAuthor>) -> (r: Result<PostWithAuthor, AppError>)
    ensures
        lookup is None ==> (r matches Err(e) && e == AppError::NotFound),
        lookup matches Some(p) ==> (r matches Ok(q) && q == p),
{
    match lookup {
        Some(p) => Ok(p),
        None => Err(AppError::NotFound),
    }
}

/// Translate the outcome of the post update write: no match is a missing
/// post, every store failure is internal (posts carry no uniqueness
/// constraint).
pub fn post_update_result(outcome: &StoreWriteOutcome) -> (r: Result<(), AppError>)
    ensures
        outcome matches StoreWriteOutcome::Applied { matched } ==> (if matched == 0 {
            r matches Err(e) && e == AppError::NotFound
        } else {
            r is Ok
        }),
        !(outcome is Applied) ==> (r matches Err(e) && e == AppError::InternalServerError),
{
    match outcome {
        StoreWriteOutcome::Applied { matched } => {
            if *matched == 0 {
                Err(AppError::NotFound)
            } else {
                Ok(())
            }
        },
        _ => Err(AppError::InternalServerError),
    }
}

} // verus!
