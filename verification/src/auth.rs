//! Token codec: issues and verifies signed, time-bound identity claims.
//!
//! The signing primitive is `jsonwebtoken` (HS256 with a shared secret).
//! What a signed token decodes to is named by the uninterpreted function
//! [`jwt_payload`]; the codec's own contracts, and the laws below, are
//! stated over that name. Expiry is checked here, in verified code,
//! against an instant the caller supplies: a token is already invalid at
//! exactly its expiry instant, with no grace window.

use vstd::prelude::*;
use crate::error::AppError;
use crate::models::{Claims, UserRole};

verus! {

/// Lifetime of an issued token: 24 hours, in seconds.
pub const TOKEN_TTL_SECS: u64 = 86400;

/// The claim set `(sub, role, iat, exp)` that a token string decodes to
/// under a given secret, or `None` if the token is malformed, carries a
/// different signature, or lacks one of the four claims.
///
/// Names the result of `jsonwebtoken::decode` with expiry validation
/// turned off, which is a function of the token and the secret alone.
pub uninterp spec fn jwt_payload(token: Seq<char>, secret: Seq<char>) -> Option<
    (Seq<char>, Seq<char>, u64, u64),
>;

/// Relies on `jsonwebtoken::encode` (HS256): the returned token is signed
/// with `secret` and embeds exactly the claims `{sub, role, iat, exp}`, so
/// decoding it under the same secret yields them back. On the HMAC path
/// signing is total — the algorithm matches the default header, and the
/// string-keyed claims map always serializes — so the call succeeds on
/// every input.
#[verifier::external_body]
fn jwt_encode(sub: &str, role: &str, iat: u64, exp: u64, secret: &str) -> (r: Option<String>)
    ensures
        r is Some,
        r matches Some(t) ==> jwt_payload(t@, secret@) == Some((sub@, role@, iat, exp)),
{
    let mut m = serde_json::Map::new();
    m.insert("sub".to_string(), serde_json::Value::from(sub));
    m.insert("role".to_string(), serde_json::Value::from(role));
    m.insert("iat".to_string(), serde_json::Value::from(iat));
    m.insert("exp".to_string(), serde_json::Value::from(exp));
    let key = jsonwebtoken::EncodingKey::from_secret(secret.as_bytes());
    jsonwebtoken::encode(&jsonwebtoken::Header::default(), &serde_json::Value::Object(m), &key).ok()
}

/// Relies on `jsonwebtoken::decode` (HS256, expiry validation off): it
/// returns the embedded claims exactly when the token's signature verifies
/// under `secret`, and nothing otherwise.
#[verifier::external_body]
fn jwt_decode(token: &str, secret: &str) -> (r: Option<(String, String, u64, u64)>)
    ensures
        r matches Some(p) ==> jwt_payload(token@, secret@) == Some((p.0@, p.1@, p.2, p.3)),
        r is None ==> jwt_payload(token@, secret@) is None,
{
    let mut validation = jsonwebtoken::Validation::default();
    validation.validate_exp = false;
    let key = jsonwebtoken::DecodingKey::from_secret(secret.as_bytes());
    let data = jsonwebtoken::decode::<serde_json::Value>(token, &key, &validation).ok()?;
    let sub = data.claims.get("sub")?.as_str()?.to_string();
    let role = data.claims.get("role")?.as_str()?.to_string();
    let iat = data.claims.get("iat")?.as_u64()?;
    let exp = data.claims.get("exp")?.as_u64()?;
    Some((sub, role, iat, exp))
}

/// What verification at instant `now` yields: the token's claim set under
/// `secret`, provided `now` lies strictly before the expiry claim.
pub open spec fn spec_verify(token: Seq<char>, secret: Seq<char>, now: u64) -> Option<
    (Seq<char>, Seq<char>, u64, u64),
> {
    match jwt_payload(token, secret) {
        Some(p) => if now < p.3 {
            Some(p)
        } else {
            None
        },
        None => None,
    }
}

/// The token codec, constructed once at startup with the process-wide
/// signing secret and shared read-only by all requests.
pub struct TokenCodec {
    pub secret: String,
}

impl TokenCodec {
    pub fn new(secret: String) -> (c: TokenCodec)
        ensures
            c.secret@ == secret@,
    {
        TokenCodec { secret }
    }

    /// Sign a claim set. Signing with a shared secret is total, so the
    /// result is always owed.
    pub fn issue(&self, claims: &Claims) -> (r: Result<String, AppError>)
        ensures
            r is Ok,
            r matches Ok(t) ==> jwt_payload(t@, self.secret@) == Some(
                (claims.sub@, claims.role@, claims.iat, claims.exp),
            ),
    {
        match jwt_encode(
            claims.sub.as_str(),
            claims.role.as_str(),
            claims.iat,
            claims.exp,
            self.secret.as_str(),
        ) {
            Some(t) => Ok(t),
            None => Err(AppError::InternalServerError),
        }
    }

    /// Check signature and expiry. Rejection does not distinguish a
    /// malformed token, a wrong signature, and an expired claim set: all
    /// come back as the one `InvalidToken` reason. Acceptance is pinned to
    /// the token's payload under this codec's secret, so a token whose
    /// signature does not verify under it is rejected.
    pub fn verify(&self, token: &str, now: u64) -> (r: Result<Claims, AppError>)
        ensures
            r matches Ok(c) ==> spec_verify(token@, self.secret@, now) == Some(
                (c.sub@, c.role@, c.iat, c.exp),
            ),
            r is Ok <==> spec_verify(token@, self.secret@, now) is Some,
            r matches Err(e) ==> e == AppError::InvalidToken,
    {
        match jwt_decode(token, self.secret.as_str()) {
            Some((sub, role, iat, exp)) => {
                if now < exp {
                    Ok(Claims { sub, role, iat, exp })
                } else {
                    Err(AppError::InvalidToken)
                }
            },
            None => Err(AppError::InvalidToken),
        }
    }
}

/// Build the claim set for a fresh token: issued at `now`, expiring 24
/// hours later.
pub fn make_claims(subject: &str, role: UserRole, now: u64) -> (c: Claims)
    requires
        now + TOKEN_TTL_SECS <= u64::MAX,
    ensures
        c.sub@ == subject@,
        c.role@ == role.spec_label(),
        c.iat == now,
        c.exp == now + TOKEN_TTL_SECS,
{
    Claims { sub: subject.to_owned(), role: role.as_str().to_owned(), iat: now, exp: now + TOKEN_TTL_SECS }
}

/// Law: a token that carries a claim set under a secret verifies under
/// that secret at every instant strictly before its expiry, and yields
/// exactly the claims it was issued with.
pub proof fn lemma_issue_verify_roundtrip(
    token: Seq<char>,
    sub: Seq<char>,
    role: Seq<char>,
    iat: u64,
    exp: u64,
    secret: Seq<char>,
    now: u64,
)
    requires
        jwt_payload(token, secret) == Some((sub, role, iat, exp)),
        now < exp,
    ensures
        spec_verify(token, secret, now) == Some((sub, role, iat, exp)),
{
}

/// Law: verification at or after the expiry instant rejects the token;
/// the boundary `now == exp` already counts as expired.
pub proof fn lemma_expired_token_rejected(token: Seq<char>, secret: Seq<char>, now: u64)
    requires
        jwt_payload(token, secret) matches Some(p) ==> now >= p.3,
    ensures
        spec_verify(token, secret, now) is None,
{
}

} // verus!
