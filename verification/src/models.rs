//! Data model: roles, user and post records, and the request/response
//! shapes the handlers exchange with their callers.

use vstd::prelude::*;
use crate::text::str_eq;

verus! {

/// Role of an authenticated principal. Every account starts as `User`;
/// `Admin` unlocks the account listing and removal actions.
#[derive(Clone, Copy, Debug, PartialEq, Eq, Structural)]
pub enum UserRole {
    User,
    Admin,
}

impl UserRole {
    /// The lowercase wire label of the role, as carried in token claims
    /// and responses.
    pub open spec fn spec_label(self) -> Seq<char> {
        match self {
            UserRole::User => "user"@,
            UserRole::Admin => "admin"@,
        }
    }

    /// Lowercase label of the role.
    pub fn as_str(&self) -> (r: &'static str)
        ensures
            r@ == self.spec_label(),
    {
        match self {
            UserRole::User => "user",
            UserRole::Admin => "admin",
        }
    }

    /// The role a claim label denotes: exactly `"admin"` is `Admin`,
    /// any other label grants no privilege.
    pub open spec fn spec_from_label(s: Seq<char>) -> UserRole {
        if s == "admin"@ {
            UserRole::Admin
        } else {
            UserRole::User
        }
    }

    /// Parse a claim label into a role; unknown labels fall back to `User`.
    pub fn from_label(s: &str) -> (r: UserRole)
        ensures
            r == UserRole::spec_from_label(s@),
    {
        if str_eq(s, "admin") {
            UserRole::Admin
        } else {
            UserRole::User
        }
    }
}

/// The role assigned to a fresh registration. Self-registration never
/// trusts a client-supplied role.
pub fn default_role() -> (r: UserRole)
    ensures
        r == UserRole::User,
{
    UserRole::User
}

/// A persisted user record. `id` is the hex form of the store's document
/// id, absent until the store has assigned one. `email` and `username`
/// are kept unique by the store itself.
#[derive(Clone, Debug)]
pub struct User {
    pub id: Option<String>,
    pub username: String,
    pub email: String,
    pub password: String,
    pub role: UserRole,
}

/// Registration input. A `role` field is accepted on the wire but never
/// honoured: the handlers assign `UserRole::User` server-side.
#[derive(Clone, Debug)]
pub struct RegisterUserRequest {
    pub username: String,
    pub email: String,
    pub password: String,
    pub role: UserRole,
}

/// Login input.
#[derive(Clone, Debug)]
pub struct LoginRequest {
    pub email: String,
    pub password: String,
}

/// The public projection of a user record: everything but the password hash.
#[derive(Clone, Debug)]
pub struct UserResponse {
    pub id: String,
    pub username: String,
    pub email: String,
    pub role: String,
}

/// Successful register/login response: a bearer token plus the user it
/// authenticates.
#[derive(Clone, Debug)]
pub struct AuthBody {
    pub access_token: String,
    pub token_type: String,
    pub user: UserResponse,
}

/// The signed claim set carried by a token: subject id (hex form of the
/// user's store id), role label, and issue/expiry instants in Unix seconds.
#[derive(Clone, Debug)]
pub struct Claims {
    pub sub: String,
    pub role: String,
    pub iat: u64,
    pub exp: u64,
}

/// An alternative claims payload binding the subject's email instead of
/// its role, with signed timestamps.
#[derive(Clone, Debug)]
pub struct JwtClaims {
    pub sub: String,
    pub email: String,
    pub exp: i64,
    pub iat: i64,
}

/// Profile edit input; at least one field must be present.
#[derive(Clone, Debug)]
pub struct UpdateProfileRequest {
    pub username: Option<String>,
    pub email: Option<String>,
}

/// A persisted post. `author_id` is the immutable hex id of the creating
/// user; `created_at` is fixed at creation and `updated_at` advances on
/// every mutation (Unix seconds).
#[derive(Clone, Debug)]
pub struct Post {
    pub id: Option<String>,
    pub author_id: String,
    pub title: String,
    pub content: String,
    pub created_at: u64,
    pub updated_at: u64,
}

/// A post joined with its author's username, as the listing returns it.
#[derive(Clone, Debug)]
pub struct PostWithAuthor {
    pub id: String,
    pub title: String,
    pub content: String,
    pub author_name: String,
    pub created_at: u64,
}

/// Post creation input.
#[derive(Clone, Debug)]
pub struct CreatePostRequest {
    pub title: String,
    pub content: String,
}

/// Post edit input; absent fields are left unchanged.
#[derive(Clone, Debug)]
pub struct UpdatePostRequest {
    pub title: Option<String>,
    pub content: Option<String>,
}

} // verus!
