//! Decision logic of the user handlers: registration, login, profile
//! reads and edits, and the admin-only listing and removal of accounts.
//!
//! Each function here is the pure part of one handler: the surrounding
//! glue performs the store reads and writes and hands their outcomes in as
//! plain values.

use vstd::prelude::*;
use crate::auth::{jwt_payload, TokenCodec, TOKEN_TTL_SECS, make_claims};
use crate::error::AppError;
use crate::extractor::AuthUser;
use crate::models::{
    AuthBody, RegisterUserRequest, UpdateProfileRequest, User, UserResponse, UserRole,
};
use crate::passwords::{password_matches, verify_password};
use crate::policy::{spec_allowed, Action, Target};
use crate::text::str_eq;

verus! {

/// Outcome of one store write, as the glue reports it back.
#[derive(Clone, Copy, Debug)]
pub enum StoreWriteOutcome {
    /// The write ran; `matched` documents matched the selector.
    Applied { matched: u64 },
    /// The store refused the write on a uniqueness constraint.
    DuplicateKey,
    /// Any other store failure.
    Failed,
}

/// Registration pre-check on the count of records already holding the
/// requested email: any hit is a uniqueness conflict. The store's own
/// constraint remains the race-free safety net behind this check.
pub fn register_precheck(email_count: u64) -> (r: Result<(), AppError>)
    ensures
        r is Ok <==> email_count == 0,
        r matches Err(e) ==> e == AppError::Conflict,
{
    if email_count > 0 {
        Err(AppError::Conflict)
    } else {
        Ok(())
    }
}

/// The record a registration inserts. The requested role is ignored: a
/// self-registration always produces a plain user, whatever the client
/// sent.
pub fn new_user_record(req: &RegisterUserRequest, password_hash: String) -> (u: User)
    ensures
        u.id is None,
        u.username@ == req.username@,
        u.email@ == req.email@,
        u.password@ == password_hash@,
        u.role == UserRole::User,
{
    User {
        id: None,
        username: req.username.clone(),
        email: req.email.clone(),
        password: password_hash,
        role: UserRole::User,
    }
}

/// Translate an insert failure: a duplicate-key refusal (the constraint
/// catching a race) is a conflict, anything else is internal.
pub fn map_insert_error(duplicate_key: bool) -> (e: AppError)
    ensures
        duplicate_key ==> e == AppError::Conflict,
        !duplicate_key ==> e == AppError::InternalServerError,
{
    if duplicate_key {
        AppError::Conflict
    } else {
        AppError::InternalServerError
    }
}

/// Issue a token for `user_id` with `role` and wrap it, with the user's
/// public projection, into the body register and login return. Issuance
/// is total, so the body is always owed.
pub fn auth_body_for(
    user_id: &str,
    username: String,
    email: String,
    role: UserRole,
    codec: &TokenCodec,
    now: u64,
) -> (r: Result<AuthBody, AppError>)
    requires
        now + TOKEN_TTL_SECS <= u64::MAX,
    ensures
        r is Ok,
        r matches Ok(b) ==> jwt_payload(b.access_token@, codec.secret@) == Some(
            (user_id@, role.spec_label(), now, (now + TOKEN_TTL_SECS) as u64),
        ),
        r matches Ok(b) ==> b.token_type@ == "Bearer"@ && b.user.id@ == user_id@
            && b.user.username@ == username@ && b.user.email@ == email@ && b.user.role@
            == role.spec_label(),
{
    let claims = make_claims(user_id, role, now);
    let token = match codec.issue(&claims) {
        Ok(t) => t,
        Err(e) => {
            return Err(e);
        },
    };
    Ok(
        AuthBody {
            access_token: token,
            token_type: "Bearer".to_owned(),
            user: UserResponse {
                id: user_id.to_owned(),
                username,
                email,
                role: role.as_str().to_owned(),
            },
        },
    )
}

/// Decide a login from the looked-up record and the presented password.
///
/// An unknown email and a wrong password are indistinguishable to the
/// caller: both are the one credential failure, never a not-found — the
/// password path must not reveal whether the email exists.
pub fn login_decision(lookup: Option<User>, password: &str, codec: &TokenCodec, now: u64) -> (r:
    Result<AuthBody, AppError>)
    requires
        now + TOKEN_TTL_SECS <= u64::MAX,
    ensures
        (r matches Err(e) && e == AppError::WrongCredentials) <==> (lookup is None || (
        lookup matches Some(u) && !password_matches(password@, u.password@))),
        lookup matches Some(u) ==> (password_matches(password@, u.password@) && u.id is None ==> (
        r matches Err(e) && e == AppError::InternalServerError)),
        lookup matches Some(u) ==> (u.id matches Some(uid) ==> (password_matches(
            password@,
            u.password@,
        ) ==> (r matches Ok(b) && jwt_payload(b.access_token@, codec.secret@) == Some(
            (uid@, u.role.spec_label(), now, (now + TOKEN_TTL_SECS) as u64),
        ) && b.token_type@ == "Bearer"@ && b.user.id@ == uid@ && b.user.username@ == u.username@
            && b.user.email@ == u.email@ && b.user.role@ == u.role.spec_label()))),
{
    let u = match lookup {
        Some(u) => u,
        None => {
            return Err(AppError::WrongCredentials);
        },
    };
    if !verify_password(password, u.password.as_str()) {
        return Err(AppError::WrongCredentials);
    }
    let uid = match u.id {
        Some(id) => id,
        None => {
            return Err(AppError::InternalServerError);
        },
    };
    auth_body_for(uid.as_str(), u.username, u.email, u.role, codec, now)
}

/// The profile a caller sees of itself, from the record looked up by its
/// own id.
pub fn current_user_response(lookup: Option<User>) -> (r: Result<UserResponse, AppError>)
    ensures
        lookup is None ==> (r matches Err(e) && e == AppError::NotFound),
        lookup matches Some(u) ==> (u.id is None ==> (r matches Err(e) && e
            == AppError::InternalServerError)),
        lookup matches Some(u) ==> (u.id matches Some(uid) ==> (r matches Ok(resp) && resp.id@
            == uid@ && resp.username@ == u.username@ && resp.email@ == u.email@ && resp.role@
            == u.role.spec_label())),
{
    let u = match lookup {
        Some(u) => u,
        None => {
            return Err(AppError::NotFound);
        },
    };
    let uid = match u.id {
        Some(id) => id,
        None => {
            return Err(AppError::InternalServerError);
        },
    };
    Ok(
        UserResponse {
            id: uid,
            username: u.username,
            email: u.email,
            role: u.role.as_str().to_owned(),
        },
    )
}

/// A profile edit must change at least one field.
pub fn profile_update_check(req: &UpdateProfileRequest) -> (r: Result<(), AppError>)
    ensures
        r is Ok <==> (req.username is Some || req.email is Some),
        r matches Err(e) ==> e == AppError::BadRequest,
{
    if req.username.is_some() || req.email.is_some() {
        Ok(())
    } else {
        Err(AppError::BadRequest)
    }
}

/// Translate the outcome of the profile update write: no match is a
/// missing record, a uniqueness refusal (the new email or username is
/// taken) is a conflict, any other failure is internal.
pub fn profile_update_result(outcome: &StoreWriteOutcome) -> (r: Result<(), AppError>)
    ensures
        outcome matches StoreWriteOutcome::Applied { matched } ==> (if matched == 0 {
            r matches Err(e) && e == AppError::NotFound
        } else {
            r is Ok
        }),
        outcome is DuplicateKey ==> (r matches Err(e) && e == AppError::Conflict),
        outcome is Failed ==> (r matches Err(e) && e == AppError::InternalServerError),
{
    match outcome {
        StoreWriteOutcome::Applied { matched } => {
            if *matched == 0 {
                Err(AppError::NotFound)
            } else {
                Ok(())
            }
        },
        StoreWriteOutcome::DuplicateKey => Err(AppError::Conflict),
        StoreWriteOutcome::Failed => Err(AppError::InternalServerError),
    }
}

/// Guard of the account listing: admins only. Denial carries no side
/// effect — the caller consults this before ever querying the store.
pub fn user_list_guard(identity: &AuthUser) -> (r: Result<(), AppError>)
    ensures
        r is Ok <==> identity.role == UserRole::Admin,
        forall|t: Target| t is UserRecord ==> (r is Ok <==> spec_allowed(
            *identity,
            Action::List,
            t,
        )),
        r matches Err(e) ==> e == AppError::Forbidden,
{
    if identity.role == UserRole::Admin {
        Ok(())
    } else {
        Err(AppError::Forbidden)
    }
}

/// The public projections of a list of records, in order, password hashes
/// left behind; a record the store returned without an id projects to an
/// empty id.
pub fn users_to_responses(users: &Vec<User>) -> (rs: Vec<UserResponse>)
    ensures
        rs@.len() == users@.len(),
        forall|i: int| 0 <= i < users@.len() ==> {
            &&& rs@[i].username@ == users@[i].username@
            &&& rs@[i].email@ == users@[i].email@
            &&& rs@[i].role@ == users@[i].role.spec_label()
            &&& (users@[i].id matches Some(h) ==> rs@[i].id@ == h@)
            &&& (users@[i].id is None ==> rs@[i].id@ == Seq::<char>::empty())
        },
{
    let mut rs: Vec<UserResponse> = Vec::new();
    let mut i: usize = 0;
    while i < users.len()
        invariant
            i <= users@.len(),
            rs@.len() == i as nat,
            forall|j: int| 0 <= j < i ==> {
                &&& rs@[j].username@ == users@[j].username@
                &&& rs@[j].email@ == users@[j].email@
                &&& rs@[j].role@ == users@[j].role.spec_label()
                &&& (users@[j].id matches Some(h) ==> rs@[j].id@ == h@)
                &&& (users@[j].id is None ==> rs@[j].id@ == Seq::<char>::empty())
            },
        decreases users@.len() - i,
    {
        let u = &users[i];
        let id = match &u.id {
            Some(h) => h.clone(),
            None => String::new(),
        };
        rs.push(
            UserResponse {
                id,
                username: u.username.clone(),
                email: u.email.clone(),
                role: u.role.as_str().to_owned(),
            },
        );
        i = i + 1;
    }
    rs
}

/// Guard of account removal: only an admin, and never the admin's own
/// record — the self-protection veto is checked for every role and maps
/// to its own error, apart from the plain permission denial.
pub fn delete_user_guard(identity: &AuthUser, target_id: &str) -> (r: Result<(), AppError>)
    ensures
        identity.role != UserRole::Admin ==> (r matches Err(e) && e == AppError::Forbidden),
        identity.role == UserRole::Admin && identity.user_id@ == target_id@ ==> (r matches Err(e)
            && e == AppError::BadRequest),
        identity.role == UserRole::Admin && identity.user_id@ != target_id@ ==> r is Ok,
        forall|t: Target| (t matches Target::UserRecord { id } && id@ == target_id@) ==> (r is Ok
            <==> spec_allowed(*identity, Action::Delete, t)),
{
    if !(identity.role == UserRole::Admin) {
        return Err(AppError::Forbidden);
    }
    if str_eq(identity.user_id.as_str(), target_id) {
        return Err(AppError::BadRequest);
    }
    Ok(())
}

/// Translate the outcome of the removal: deleting nothing means the record
/// was not there.
pub fn delete_user_result(deleted_count: u64) -> (r: Result<(), AppError>)
    ensures
        r is Ok <==> deleted_count > 0,
        r matches Err(e) ==> e == AppError::NotFound,
{
    if deleted_count == 0 {
        Err(AppError::NotFound)
    } else {
        Ok(())
    }
}

} // verus!
