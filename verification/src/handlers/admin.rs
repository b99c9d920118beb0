//! What the administrator's operations decide: who may act, on whom, and
//! what follows.

use vstd::prelude::*;

use crate::authenticator::AuthError;
use crate::constants::Roles;
use crate::lockout::LockStatus;
use crate::models::credential::{CredentialRecord, Identity};
use crate::utils::jwt::{uuid_of_text, JwtService};
use crate::utils::password::{PasswordService, MAX_COST, MIN_COST};

verus! {

/// The page asked for where a listing names none.
pub fn default_page() -> (page: u32)
    ensures
        page == 1,
{
    1
}

/// The page size where a listing names none.
pub fn default_limit() -> (limit: u32)
    ensures
        limit == 20,
{
    20
}

/// The number of entries before page `page` of `limit` entries each, with
/// pages counted from 1; `None` for page 0 and where the number does not
/// fit.
pub open spec fn spec_page_offset(page: u32, limit: u32) -> Option<u32> {
    if page >= 1 && (page - 1) * limit <= u32::MAX {
        Some(((page - 1) * limit) as u32)
    } else {
        None
    }
}

/// The number of entries to skip for a page: see [`spec_page_offset`].
pub fn page_offset(page: u32, limit: u32) -> (offset: Option<u32>)
    ensures
        offset == spec_page_offset(page, limit),
{
    if page == 0 {
        return None;
    }
    assert((page - 1) * limit <= 0xffff_ffff * 0xffff_ffff) by (nonlinear_arith)
        requires
            0 <= page - 1 <= 0xffff_ffff,
            0 <= limit <= 0xffff_ffff,
    ;
    let wide: u64 = ((page - 1) as u64) * (limit as u64);
    if wide > 0xffff_ffff {
        None
    } else {
        Some(wide as u32)
    }
}

/// A listing of users, by page, with optional filters.
#[derive(Debug, Clone, PartialEq, Eq)]
pub struct GetUsersQuery {
    pub page: u32,
    pub limit: u32,
    pub status: Option<String>,
    pub role: Option<String>,
    pub search: Option<String>,
}

impl GetUsersQuery {
    pub fn offset(&self) -> (offset: Option<u32>)
        ensures
            offset == spec_page_offset(self.page, self.limit),
    {
        page_offset(self.page, self.limit)
    }
}

/// A listing of security events, by page, with optional filters.
#[derive(Debug, Clone, PartialEq, Eq)]
pub struct SecurityLogsQuery {
    pub page: u32,
    pub limit: u32,
    pub event_type: Option<String>,
    pub user_id: Option<String>,
    pub start_date: Option<String>,
    pub end_date: Option<String>,
}

impl SecurityLogsQuery {
    pub fn offset(&self) -> (offset: Option<u32>)
        ensures
            offset == spec_page_offset(self.page, self.limit),
    {
        page_offset(self.page, self.limit)
    }
}

/// A change of a user's status: `"active"`, `"disabled"` or `"suspended"`.
#[derive(Debug, Clone, PartialEq, Eq)]
pub struct UpdateUserStatusRequest {
    pub status: String,
    pub reason: Option<String>,
}

/// A request to end all sessions of a user.
#[derive(Debug, Clone, PartialEq, Eq)]
pub struct RevokeSessionsRequest {
    pub user_id: String,
    pub reason: Option<String>,
}

/// A request to unlock an account, named by user id or by email.
#[derive(Debug, Clone, PartialEq, Eq)]
pub struct UnlockAccountRequest {
    pub user_id: Option<String>,
    pub email: Option<String>,
    pub reason: Option<String>,
}

/// A user as an administrator sees them.
#[derive(Debug, Clone, PartialEq, Eq)]
pub struct UserAdminView {
    pub id: String,
    pub email: String,
    pub name: String,
    pub email_verified: bool,
    pub login_failure_count: i32,
    pub last_login_at: Option<String>,
    pub created_at: String,
}

/// One page of users.
#[derive(Debug, Clone, PartialEq, Eq)]
pub struct UserListResponse {
    pub users: Vec<UserAdminView>,
    pub total: i64,
    pub page: u32,
    pub limit: u32,
}

impl UserListResponse {
    /// The answer to a listing: the users found, their total number, and
    /// the page and page size that were asked for.
    pub fn new(users: Vec<UserAdminView>, total: i64, query: &GetUsersQuery) -> (r:
        UserListResponse)
        ensures
            r.users == users,
            r.total == total,
            r.page == query.page,
            r.limit == query.limit,
    {
        UserListResponse { users, total, page: query.page, limit: query.limit }
    }
}

/// The account that an unlock names.
#[derive(Debug, Clone, PartialEq, Eq)]
pub enum UnlockTarget {
    ById(u128),
    ByEmail(String),
}

/// The text before which a token stands in an authorization header.
pub const BEARER_PREFIX: &'static str = "Bearer ";

/// The token in an authorization header: what follows `"Bearer "`, where
/// the header starts with it.
pub open spec fn spec_bearer_token(header: Seq<char>) -> Option<Seq<char>> {
    if BEARER_PREFIX@.is_prefix_of(header) {
        Some(header.skip(BEARER_PREFIX@.len() as int))
    } else {
        None
    }
}

/// The token in an authorization header: see [`spec_bearer_token`].
pub fn bearer_token<'a>(header: &'a str) -> (token: Option<&'a str>)
    ensures
        match spec_bearer_token(header@) {
            Some(text) => token matches Some(t) && t@ == text,
            None => token is None,
        },
{
    proof {
        reveal_strlit("Bearer ");
    }
    let length = header.unicode_len();
    if length < 7 {
        return None;
    }
    let mut i: usize = 0;
    while i < 7
        invariant
            i <= 7,
            length == header@.len(),
            length >= 7,
            BEARER_PREFIX@.len() == 7,
            forall|j: int| 0 <= j < i ==> header@[j] == BEARER_PREFIX@[j],
        decreases 7 - i,
    {
        if header.get_char(i) != BEARER_PREFIX.get_char(i) {
            proof {
                assert(header@.subrange(0, 7)[i as int] == header@[i as int]);
            }
            return None;
        }
        i = i + 1;
    }
    proof {
        assert(header@.subrange(0, 7) =~= BEARER_PREFIX@);
        assert(header@.subrange(7, length as int) =~= header@.skip(7));
    }
    Some(header.substring_char(7, length))
}

/// Whether a role makes its holder an administrator.
pub open spec fn spec_is_admin_role(role: Seq<char>) -> bool {
    role == Roles::ADMIN@ || role == Roles::SUPER_ADMIN@ || role == "user_admin"@ || role
        == "security_admin"@
}

/// Whether a role makes its holder an administrator.
pub fn is_admin_role(role: &String) -> (r: bool)
    ensures
        r == spec_is_admin_role(role@),
{
    *role == Roles::ADMIN.to_owned() || *role == Roles::SUPER_ADMIN.to_owned() || *role
        == "user_admin".to_owned() || *role == "security_admin".to_owned()
}

/// Whether one of the roles makes its holder an administrator.
pub fn has_admin_role(roles: &Vec<String>) -> (r: bool)
    ensures
        r == exists|i: int| 0 <= i < roles.len() && spec_is_admin_role(#[trigger] roles[i]@),
{
    let mut i: usize = 0;
    while i < roles.len()
        invariant
            i <= roles.len(),
            forall|j: int| 0 <= j < i ==> !spec_is_admin_role(#[trigger] roles[j]@),
        decreases roles.len() - i,
    {
        if is_admin_role(&roles[i]) {
            return true;
        }
        i = i + 1;
    }
    false
}

/// The id of the user that an administrator's request acts for, read at
/// `now` from the authorization header. A missing header, one that carries
/// no bearer token, and a token that is not valid or names no user id are
/// all refused as `TokenInvalid`.
pub fn verify_admin_token(jwt: &JwtService, authorization: Option<&str>, now: i64) -> (r: Result<
    u128,
    AuthError,
>)
    ensures
        match authorization {
            None => r matches Err(e) && e == AuthError::TokenInvalid,
            Some(header) => match spec_bearer_token(header@) {
                None => r matches Err(e) && e == AuthError::TokenInvalid,
                Some(token) => match jwt.spec_validate(token, now) {
                    Err(_) => r matches Err(e) && e == AuthError::TokenInvalid,
                    Ok(claims) => match uuid_of_text(claims.sub) {
                        Some(id) => r matches Ok(v) && v == id,
                        None => r matches Err(e) && e == AuthError::TokenInvalid,
                    },
                },
            },
        },
{
    let header = match authorization {
        Some(header) => header,
        None => {
            return Err(AuthError::TokenInvalid);
        },
    };
    let token = match bearer_token(header) {
        Some(token) => token,
        None => {
            return Err(AuthError::TokenInvalid);
        },
    };
    match jwt.extract_user_id(token, now) {
        Ok(id) => Ok(id),
        Err(_) => Err(AuthError::TokenInvalid),
    }
}

/// Whether the user that a token named may act as an administrator: the
/// user must exist, and one of their roles must be an administrator's.
pub fn authorize_admin(user: &Option<Identity>, roles: &Vec<String>) -> (r: Result<(), AuthError>)
    ensures
        match user {
            None => r matches Err(e) && e == AuthError::UserNotFound,
            Some(_) => if exists|i: int|
                0 <= i < roles.len() && spec_is_admin_role(#[trigger] roles[i]@) {
                r is Ok
            } else {
                r matches Err(e) && e == AuthError::InsufficientPermissions
            },
        },
{
    if user.is_none() {
        return Err(AuthError::UserNotFound);
    }
    if !has_admin_role(roles) {
        return Err(AuthError::InsufficientPermissions);
    }
    Ok(())
}

/// The user id that a request names, as text: `ValidationError` where the
/// text is no user id.
pub fn target_user_id(text: &str) -> (r: Result<u128, AuthError>)
    ensures
        match uuid_of_text(text@) {
            Some(id) => r matches Ok(v) && v == id,
            None => r matches Err(e) && e == AuthError::ValidationError,
        },
{
    match JwtService::parse_user_id(text) {
        Some(id) => Ok(id),
        None => Err(AuthError::ValidationError),
    }
}

/// Whether a status change is allowed, and whether the user's sessions must
/// end with it. Administrators may not take their own account out of the
/// `"active"` status; a user who is set to `"disabled"` loses all sessions.
pub fn user_status_change(admin_id: u128, target_id: u128, request: &UpdateUserStatusRequest) -> (r:
    Result<bool, AuthError>)
    ensures
        if admin_id == target_id && request.status@ != "active"@ {
            r matches Err(e) && e == AuthError::ValidationError
        } else {
            r matches Ok(revoke) && revoke == (request.status@ == "disabled"@)
        },
{
    if admin_id == target_id && request.status != "active".to_owned() {
        return Err(AuthError::ValidationError);
    }
    Ok(request.status == "disabled".to_owned())
}

/// The reason given for a revocation, or `"revoked_by_admin"`.
pub fn revocation_reason(request: &RevokeSessionsRequest) -> (reason: String)
    ensures
        reason@ == match request.reason {
            Some(text) => text@,
            None => "revoked_by_admin"@,
        },
{
    match &request.reason {
        Some(text) => text.clone(),
        None => "revoked_by_admin".to_owned(),
    }
}

/// The reason given for an unlock, or `"unlocked_by_admin"`.
pub fn unlock_reason(request: &UnlockAccountRequest) -> (reason: String)
    ensures
        reason@ == match request.reason {
            Some(text) => text@,
            None => "unlocked_by_admin"@,
        },
{
    match &request.reason {
        Some(text) => text.clone(),
        None => "unlocked_by_admin".to_owned(),
    }
}

/// The account that an unlock request names. A user id comes before an
/// email; a request with neither, or with a user id that is none, is a
/// `ValidationError`.
pub fn unlock_target(request: &UnlockAccountRequest) -> (r: Result<UnlockTarget, AuthError>)
    ensures
        match (request.user_id, request.email) {
            (Some(text), _) => match uuid_of_text(text@) {
                Some(id) => r matches Ok(UnlockTarget::ById(v)) && v == id,
                None => r matches Err(e) && e == AuthError::ValidationError,
            },
            (None, Some(email)) => r matches Ok(UnlockTarget::ByEmail(v)) && v@ == email@,
            (None, None) => r matches Err(e) && e == AuthError::ValidationError,
        },
{
    match &request.user_id {
        Some(text) => match target_user_id(text.as_str()) {
            Ok(id) => Ok(UnlockTarget::ById(id)),
            Err(e) => Err(e),
        },
        None => match &request.email {
            Some(email) => Ok(UnlockTarget::ByEmail(email.clone())),
            None => Err(AuthError::ValidationError),
        },
    }
}

/// Unlocks an account by an administrator's order, whatever its state and
/// the time: the failure count and the lock flag are cleared and nothing
/// else changes. An account named by user id must exist.
pub fn unlock_user_account(record: Option<CredentialRecord>) -> (r: Result<
    CredentialRecord,
    AuthError,
>)
    ensures
        match record {
            None => r matches Err(e) && e == AuthError::NotFound,
            Some(rec) => r matches Ok(v) && v@ == rec@.with_lockout(rec.lockout.after_reset()),
        },
{
    match record {
        None => Err(AuthError::NotFound),
        Some(mut rec) => {
            rec.lockout.admin_unlock();
            Ok(rec)
        },
    }
}

/// The lock of an account as an administrator is shown it at `now`.
pub fn get_account_lock_status(record: &Option<CredentialRecord>, now: i64) -> (r: Result<
    LockStatus,
    AuthError,
>)
    ensures
        match record {
            None => r matches Err(e) && e == AuthError::NotFound,
            Some(rec) => r matches Ok(v) && v == LockStatus::spec_of(rec.lockout, now as int),
        },
{
    match record {
        None => Err(AuthError::NotFound),
        Some(rec) => Ok(LockStatus::of(&rec.lockout, now)),
    }
}

/// A password reset by an administrator: a fresh temporary password and
/// its hash at the work factor `cost`. The hash verifies the password; a
/// failure to hash is an `InternalError`.
pub fn reset_user_password(cost: u32) -> (r: Result<(String, String), AuthError>)
    ensures
        r matches Err(e) ==> e == AuthError::InternalError,
        cost < MIN_COST || cost > MAX_COST ==> r is Err,
        r matches Ok(pair) ==> PasswordService::spec_verify(pair.0@, pair.1@) == Some(true),
{
    let temporary = PasswordService::generate_temp_password();
    match PasswordService::hash_password(temporary.as_str(), cost) {
        Ok(hash) => Ok((temporary, hash)),
        Err(_) => Err(AuthError::InternalError),
    }
}

} // verus!
