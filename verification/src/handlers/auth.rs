//! Sign-up, sign-in and sign-out, as far as they are decided here: the
//! caller looks records up before and stores them after.

use vstd::prelude::*;

use crate::authenticator::{
    AuthError, Authenticator, GrantedView, OutcomeView, Registration, StoreAction,
};
use crate::lockout::LockoutState;
use crate::models::credential::{
    seen, CredentialRecord, CredentialView, Identity, IdentityView,
};
use crate::models::request::{AuthPayload, LogoutPayload};
use crate::utils::jwt::{uuid_text, JwtService};
use crate::utils::validation::ProtoValidator;

verus! {

/// A signed-in user: who they are, their role, and their token.
#[derive(Debug, Clone, PartialEq, Eq)]
pub struct Session {
    pub token: String,
    pub identity: Identity,
    pub role: String,
}

/// What a sign-in came to.
#[derive(Debug, PartialEq, Eq)]
pub struct SigninOutcome {
    /// The session, or why there is none.
    pub result: Result<Session, AuthError>,
    /// The credential record as it stands after the attempt.
    pub record: Option<CredentialRecord>,
    /// The write that is owed to the store.
    pub action: StoreAction,
}

impl Session {
    /// Whether the session is the one opened at `now` for `identity` in
    /// `role`: its token, decoded under the service's secret, names the
    /// user's id, email and role, is issued at `now` and lives for the
    /// configured lifetime.
    pub open spec fn opened_for(
        self,
        jwt: JwtService,
        identity: IdentityView,
        role: Seq<char>,
        now: i64,
    ) -> bool {
        &&& self.identity@ == identity
        &&& self.role@ == role
        &&& jwt.decoded(self.token@) == jwt.issued(
            jwt.claims_for(uuid_text(identity.id), identity.email, role, now),
        )
    }
}

impl SigninOutcome {
    /// The outcome as the authenticator sees it, without the token.
    pub open spec fn attempt(self) -> OutcomeView {
        OutcomeView {
            result: match self.result {
                Ok(session) => Ok(GrantedView { identity: session.identity@, role: session.role@ }),
                Err(e) => Err(e),
            },
            record: seen(self.record),
            action: self.action,
        }
    }
}

/// Whether `out` is what a sign-in at `now` comes to.
///
/// A malformed request is refused before anything else is looked at, and
/// nothing changes. Every other request is an attempt that the
/// authenticator decides; where it grants access, the session carries a
/// fresh token for the user.
pub open spec fn signin_decision(
    jwt: JwtService,
    request: AuthPayload,
    user: Option<Identity>,
    record: Option<CredentialRecord>,
    role: Option<String>,
    now: i64,
    out: SigninOutcome,
) -> bool {
    if ProtoValidator::signin_fault(request.email@, request.password@) is Some {
        out.attempt() == Authenticator::refused(
            AuthError::ValidationError,
            seen(record),
            StoreAction::Nothing,
        )
    } else {
        &&& out.attempt() == Authenticator::outcome(
            seen(user),
            seen(record),
            seen(role),
            Authenticator::password_verdict(seen(record), request.password@),
            now,
        )
        &&& out.result matches Ok(session) ==> session.opened_for(
            jwt,
            user.unwrap()@,
            Authenticator::role_or_default(seen(role)),
            now,
        )
    }
}

/// Issues the token of a session at `now` for a user in a role.
fn session_for(jwt: &JwtService, identity: Identity, role: String, now: i64) -> (r: Result<
    Session,
    AuthError,
>)
    requires
        jwt.can_issue_at(now),
    ensures
        r matches Ok(session) && session.opened_for(*jwt, identity@, role@, now),
{
    match jwt.generate_token(identity.id, identity.email.as_str(), role.as_str(), now) {
        Ok(token) => Ok(Session { token, identity, role }),
        Err(e) => Err(AuthError::of_token_error(e)),
    }
}

/// Opens a session at `now` for a user whose role was looked up: resolves
/// the role and issues the token.
pub fn open_session(jwt: &JwtService, identity: Identity, role: Option<String>, now: i64) -> (r:
    Result<Session, AuthError>)
    requires
        jwt.can_issue_at(now),
    ensures
        r matches Ok(session) && session.opened_for(
            *jwt,
            identity@,
            Authenticator::role_or_default(seen(role)),
            now,
        ),
{
    session_for(jwt, identity, Authenticator::resolve_role(role), now)
}

/// Signs a user in at `now`.
///
/// `user` and `record` are what the lookups by the request's email found,
/// `role` what the role lookup found. The caller stores what
/// `out.action` names, from `out.record`.
pub fn signin(
    jwt: &JwtService,
    request: &AuthPayload,
    user: Option<Identity>,
    record: Option<CredentialRecord>,
    role: Option<String>,
    now: i64,
) -> (out: SigninOutcome)
    requires
        jwt.can_issue_at(now),
        Authenticator::countable(record),
    ensures
        signin_decision(*jwt, *request, user, record, role, now, out),
{
    if ProtoValidator::validate_signin_request(request).is_err() {
        return SigninOutcome {
            result: Err(AuthError::ValidationError),
            record,
            action: StoreAction::Nothing,
        };
    }
    let attempt = Authenticator::authenticate(user, record, role, request.password.as_str(), now);
    match attempt.result {
        Ok(granted) => {
            let result = session_for(jwt, granted.identity, granted.role, now);
            SigninOutcome { result, record: attempt.record, action: attempt.action }
        },
        Err(e) => SigninOutcome { result: Err(e), record: attempt.record, action: attempt.action },
    }
}

/// Completes a sign-up at `now`: opens the first session of the identity
/// that was just created from a [`Registration`].
pub fn signup(jwt: &JwtService, identity: Identity, role: Option<String>, now: i64) -> (r: Result<
    Session,
    AuthError,
>)
    requires
        jwt.can_issue_at(now),
    ensures
        r matches Ok(session) && session.opened_for(
            *jwt,
            identity@,
            Authenticator::role_or_default(seen(role)),
            now,
        ),
{
    open_session(jwt, identity, role, now)
}

/// The identity to create for a registration, once the store has given it
/// an id, and the credential record to create after it.
pub fn enrolled(registration: Registration, id: u128) -> (r: (Identity, CredentialRecord))
    ensures
        r.0@ == (IdentityView { id, email: registration.email@, name: registration.name@ }),
        r.1@ == (CredentialView {
            user_id: id,
            email: registration.email@,
            password_hash: registration.password_hash@,
            email_verified: false,
            lockout: LockoutState::fresh(),
        }),
{
    let identity = Identity { id, email: registration.email.clone(), name: registration.name };
    let record = CredentialRecord::new(id, registration.email, registration.password_hash);
    (identity, record)
}

/// Signs a user out. Tokens are not kept anywhere, so there is nothing to
/// revoke: the answer says only whether the token was still valid at `now`,
/// and the sign-out succeeds either way.
pub fn logout(jwt: &JwtService, request: &LogoutPayload, now: i64) -> (was_valid: bool)
    ensures
        was_valid == jwt.spec_validate(request.token@, now) is Ok,
{
    !jwt.is_token_expired(request.token.as_str(), now)
}

} // verus!
