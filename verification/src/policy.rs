//! Access policy: given an authenticated identity, an action and a target
//! resource, decide allow or deny.
//!
//! The decision is a pure function of the identity, the action and the
//! target's owner id; it has no side effects, and the handlers consult it
//! uniformly instead of repeating inline checks.

use vstd::prelude::*;
use crate::extractor::AuthUser;
use crate::models::UserRole;
use crate::text::str_eq;

verus! {

/// The operations the policy rules speak about.
#[derive(Clone, Copy, Debug, PartialEq, Eq, Structural)]
pub enum Action {
    Read,
    Create,
    Update,
    Delete,
    List,
}

/// A target resource, reduced to what the rules read: a post's author id,
/// or a user record's own id.
#[derive(Clone, Debug)]
pub enum Target {
    Post { author_id: String },
    UserRecord { id: String },
}

/// The policy rules, in order:
/// 1. Mutating a post (update, delete) is allowed iff the caller owns it
///    or is an admin.
/// 2. Deleting a user record is never allowed on the caller's own record
///    — an absolute veto, regardless of role — and otherwise requires an
///    admin.
/// 3. Listing user records requires an admin.
/// 4. Every other action passes with authentication alone.
pub open spec fn spec_allowed(identity: AuthUser, action: Action, target: Target) -> bool {
    match target {
        Target::Post { author_id } => match action {
            Action::Update | Action::Delete => identity.user_id@ == author_id@ || identity.role
                == UserRole::Admin,
            _ => true,
        },
        Target::UserRecord { id } => match action {
            Action::Delete => id@ != identity.user_id@ && identity.role == UserRole::Admin,
            Action::List => identity.role == UserRole::Admin,
            _ => true,
        },
    }
}

/// Decide whether `identity` may perform `action` on `target`.
pub fn can(identity: &AuthUser, action: Action, target: &Target) -> (r: bool)
    ensures
        r == spec_allowed(*identity, action, *target),
{
    match target {
        Target::Post { author_id } => match action {
            Action::Update | Action::Delete => str_eq(
                identity.user_id.as_str(),
                author_id.as_str(),
            ) || identity.role == UserRole::Admin,
            _ => true,
        },
        Target::UserRecord { id } => match action {
            Action::Delete => !str_eq(id.as_str(), identity.user_id.as_str()) && identity.role
                == UserRole::Admin,
            Action::List => identity.role == UserRole::Admin,
            _ => true,
        },
    }
}

/// Law: for a post owned by `author`, the owner may mutate it whatever
/// their role; a different plain user may not; an admin may even when not
/// the owner.
pub proof fn lemma_post_mutation_policy(
    owner: AuthUser,
    other_user: AuthUser,
    other_admin: AuthUser,
    action: Action,
    author: Seq<char>,
)
    requires
        action == Action::Update || action == Action::Delete,
        owner.user_id@ == author,
        other_user.user_id@ != author,
        other_user.role == UserRole::User,
        other_admin.user_id@ != author,
        other_admin.role == UserRole::Admin,
    ensures
        forall|t: Target| (t matches Target::Post { author_id } && author_id@ == author) ==> {
            &&& spec_allowed(owner, action, t)
            &&& !spec_allowed(other_user, action, t)
            &&& spec_allowed(other_admin, action, t)
        },
{
}

/// Law: no identity may delete its own user record — even an admin, whom
/// the admin rule alone would allow.
pub proof fn lemma_self_delete_always_denied(identity: AuthUser, target: Target)
    requires
        target matches Target::UserRecord { id } && id@ == identity.user_id@,
    ensures
        !spec_allowed(identity, Action::Delete, target),
{
}

} // verus!
