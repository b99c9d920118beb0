//! Verifying, describing and refreshing a presented token.
//!
//! Each operation comes in two steps around the caller's lookup of the
//! user: `token_verify` yields the claims and the user id to look up, and
//! `token_info` or `token_refresh` finish with what the lookup found.

use vstd::prelude::*;

use crate::authenticator::{AuthError, Authenticator};
use crate::models::credential::{seen, Identity};
use crate::models::request::TokenRequest;
use crate::utils::jwt::{uuid_of_text, Claims, ClaimsView, JwtService};

verus! {

/// What a valid token says of its user, with name and role as the stores
/// have them now.
#[derive(Debug, Clone, PartialEq, Eq)]
pub struct TokenInfo {
    pub valid: bool,
    pub user_id: u128,
    pub email: String,
    pub name: String,
    pub role: String,
    pub expires_at: i64,
    pub issued_at: i64,
}

/// A refreshed token and its expiry.
#[derive(Debug, Clone, PartialEq, Eq)]
pub struct RefreshedToken {
    pub token: String,
    pub expires_at: i64,
}

/// What verifying a token at `now` comes to: its claims and the id of its
/// user, or the reason for which it is refused. A subject that is not a
/// user id makes the token invalid.
pub open spec fn verification(jwt: JwtService, token: Seq<char>, now: i64) -> Result<
    (ClaimsView, u128),
    AuthError,
> {
    match jwt.spec_validate(token, now) {
        Ok(claims) => match uuid_of_text(claims.sub) {
            Some(id) => Ok((claims, id)),
            None => Err(AuthError::TokenInvalid),
        },
        Err(e) => Err(AuthError::spec_of_token_error(e)),
    }
}

/// Verifies the token of a request at `now`: see [`verification`].
pub fn token_verify(jwt: &JwtService, request: &TokenRequest, now: i64) -> (r: Result<
    (Claims, u128),
    AuthError,
>)
    ensures
        match verification(*jwt, request.token@, now) {
            Ok(found) => r matches Ok(got) && got.0@ == found.0 && got.1 == found.1,
            Err(e) => r matches Err(x) && x == e,
        },
{
    let claims = match jwt.validate_token(request.token.as_str(), now) {
        Ok(claims) => claims,
        Err(e) => {
            return Err(AuthError::of_token_error(e));
        },
    };
    match JwtService::subject_id(&claims) {
        Ok(id) => Ok((claims, id)),
        Err(e) => Err(AuthError::of_token_error(e)),
    }
}

/// Describes a verified token. `user` is what the lookup of the token's
/// user found and `role` what the role lookup found. A user that is gone
/// is reported as `UserNotFound`; otherwise the description names the
/// user as stored, in the role found or as `"user"`, with the token's times.
pub fn token_info(claims: &Claims, user: Option<Identity>, role: Option<String>) -> (r: Result<
    TokenInfo,
    AuthError,
>)
    ensures
        match user {
            None => r matches Err(x) && x == AuthError::UserNotFound,
            Some(identity) => {
                &&& r matches Ok(info)
                &&& r.unwrap().valid
                &&& r.unwrap().user_id == identity.id
                &&& r.unwrap().email@ == identity.email@
                &&& r.unwrap().name@ == identity.name@
                &&& r.unwrap().role@ == Authenticator::role_or_default(seen(role))
                &&& r.unwrap().expires_at == claims.exp
                &&& r.unwrap().issued_at == claims.iat
            },
        },
{
    match user {
        None => Err(AuthError::UserNotFound),
        Some(identity) => Ok(
            TokenInfo {
                valid: true,
                user_id: identity.id,
                email: identity.email,
                name: identity.name,
                role: Authenticator::resolve_role(role),
                expires_at: claims.exp,
                issued_at: claims.iat,
            },
        ),
    }
}

/// Refreshes the token of a request at `now`.
///
/// The token must verify. `user` is what the lookup of its user found and
/// `role` what the role lookup found: the new token is issued in that
/// role, or as `"user"`, never in the role that the old token names. It
/// keeps the old subject and email and expires the configured lifetime
/// after `now`.
pub fn token_refresh(
    jwt: &JwtService,
    request: &TokenRequest,
    user: Option<Identity>,
    role: Option<String>,
    now: i64,
) -> (r: Result<RefreshedToken, AuthError>)
    requires
        jwt.can_issue_at(now),
    ensures
        match verification(*jwt, request.token@, now) {
            Err(e) => r matches Err(x) && x == e,
            Ok(found) => if user is None {
                r matches Err(x) && x == AuthError::UserNotFound
            } else {
                &&& r matches Ok(fresh)
                &&& r.unwrap().expires_at == jwt.expiry(now)
                &&& jwt.decoded(r.unwrap().token@) == jwt.issued(
                    jwt.claims_for(
                        found.0.sub,
                        found.0.email,
                        Authenticator::role_or_default(seen(role)),
                        now,
                    ),
                )
            },
        },
{
    match token_verify(jwt, request, now) {
        Ok(_) => {},
        Err(e) => {
            return Err(e);
        },
    }
    if user.is_none() {
        return Err(AuthError::UserNotFound);
    }
    let role = Authenticator::resolve_role(role);
    match jwt.refresh_token(request.token.as_str(), role.as_str(), now) {
        Ok(token) => Ok(RefreshedToken { token, expires_at: jwt.expires_at(now) }),
        Err(e) => Err(AuthError::of_token_error(e)),
    }
}

} // verus!
