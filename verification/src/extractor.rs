//! Identity extractor: turns a request's `Authorization` header into an
//! authenticated identity, or rejects the request.
//!
//! Extraction is pure: it reads the header value and the codec's secret and
//! touches nothing else, so a rejection here happens before any store
//! access. All three rejections carry status 401, but their messages keep
//! them apart for testing.

use vstd::prelude::*;
use crate::auth::{spec_verify, TokenCodec};
use crate::error::AuthError;
use crate::models::UserRole;

verus! {

/// The authenticated principal of one request: the token's subject id and
/// its role. Ephemeral; never persisted.
#[derive(Clone, Debug)]
pub struct AuthUser {
    pub user_id: String,
    pub role: UserRole,
}

/// The token part of a well-formed `Authorization` header: the scheme
/// prefix `"Bearer "` followed by a non-empty token.
pub open spec fn spec_bearer_token(h: Seq<char>) -> Option<Seq<char>> {
    if h.len() > 7 && h.subrange(0, 7) == "Bearer "@ {
        Some(h.subrange(7, h.len() as int))
    } else {
        None
    }
}

/// Strip the `"Bearer "` scheme prefix from a header value.
pub fn parse_bearer<'a>(header: &'a str) -> (r: Option<&'a str>)
    ensures
        r matches Some(t) ==> spec_bearer_token(header@) == Some(t@),
        r is None ==> spec_bearer_token(header@) is None,
{
    proof {
        reveal_strlit("Bearer ");
    }
    let scheme = "Bearer ";
    let n = header.unicode_len();
    if n <= 7 {
        return None;
    }
    let mut i: usize = 0;
    while i < 7
        invariant
            i <= 7,
            n == header@.len(),
            n > 7,
            scheme@ == "Bearer "@,
            scheme@.len() == 7,
            forall|j: int| 0 <= j < i ==> header@[j] == scheme@[j],
        decreases 7 - i,
    {
        if header.get_char(i) != scheme.get_char(i) {
            proof {
                assert(header@.subrange(0, 7)[i as int] != "Bearer "@[i as int]);
            }
            return None;
        }
        i = i + 1;
    }
    proof {
        assert(header@.subrange(0, 7) =~= "Bearer "@);
    }
    Some(header.substring_char(7, n))
}

/// The identity an accepted token denotes: its subject, with the role its
/// label grants.
pub open spec fn spec_identity_of(sub: Seq<char>, role_label: Seq<char>) -> (Seq<char>, UserRole) {
    (sub, UserRole::spec_from_label(role_label))
}

/// Authenticate one request from its `Authorization` header value.
///
/// Rejects, with status 401 throughout: a missing header; a header without
/// the `"Bearer "` scheme or with an empty token; and a token the codec
/// does not accept at instant `now` (malformed, wrong signature, or
/// expired — deliberately not told apart).
pub fn authenticate(header: Option<&str>, codec: &TokenCodec, now: u64) -> (r: Result<
    AuthUser,
    AuthError,
>)
    ensures
        header is None ==> (r matches Err(e) && e.status == 401 && e.message@
            == "Missing Authorization header"@),
        header matches Some(h) ==> (spec_bearer_token(h@) is None ==> (r matches Err(e) && e.status
            == 401 && e.message@ == "Invalid token format"@)),
        header matches Some(h) ==> (spec_bearer_token(h@) matches Some(t) ==> (spec_verify(
            t,
            codec.secret@,
            now,
        ) is None ==> (r matches Err(e) && e.status == 401 && e.message@
            == "Invalid or expired token"@))),
        header matches Some(h) ==> (spec_bearer_token(h@) matches Some(t) ==> (spec_verify(
            t,
            codec.secret@,
            now,
        ) matches Some(p) ==> (r matches Ok(u) && (u.user_id@, u.role) == spec_identity_of(
            p.0,
            p.1,
        )))),
{
    let h = match header {
        Some(h) => h,
        None => {
            return Err(
                AuthError { status: 401, message: "Missing Authorization header".to_owned() },
            );
        },
    };
    let token = match parse_bearer(h) {
        Some(t) => t,
        None => {
            return Err(AuthError { status: 401, message: "Invalid token format".to_owned() });
        },
    };
    match codec.verify(token, now) {
        Ok(claims) => Ok(
            AuthUser { user_id: claims.sub, role: UserRole::from_label(claims.role.as_str()) },
        ),
        Err(_) => Err(AuthError { status: 401, message: "Invalid or expired token".to_owned() }),
    }
}

} // verus!
