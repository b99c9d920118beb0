//! The credential authenticator: what a sign-in attempt and a sign-up come
//! to, given what the stores hold.
//!
//! The authenticator reads nothing and writes nothing itself. It is handed
//! the records that a lookup found and hands back its verdict together with
//! the record as it must be stored and the write that the caller owes.

use vstd::prelude::*;

use crate::constants::{AccountLock, ErrorCode, ErrorMessage, Roles};
use crate::lockout::{
    law_threshold_locks, lemma_failures_are_counted, LockoutState, LOCK_WINDOW_SECONDS,
};
use crate::models::credential::{
    seen, CredentialRecord, CredentialView, Identity, IdentityView,
};
use crate::models::request::SignupPayload;
use crate::utils::jwt::JwtError;
use crate::utils::password::{
    bcrypt_verdict, PasswordError, PasswordService, MAX_COST, MIN_COST,
};
use crate::utils::validation::ProtoValidator;

verus! {

/// Why a request was refused.
#[derive(Debug, Clone, Copy, PartialEq, Eq, Structural)]
pub enum AuthError {
    /// The request is malformed.
    ValidationError,
    /// Wrong email or wrong password; the two are never told apart.
    InvalidCredentials,
    /// The account is locked. The minutes until it unlocks by itself are
    /// given where they are known, and are at least 1.
    AccountLocked { remaining_minutes: Option<i64> },
    /// The email is taken.
    AlreadyExists,
    WeakPassword,
    /// The token's signature, issuer or format is wrong.
    TokenInvalid,
    TokenExpired,
    /// The user that a token names is gone.
    UserNotFound,
    /// The request carries no token.
    TokenNotFound,
    /// The user that an administrator names does not exist.
    NotFound,
    /// The caller is no administrator.
    InsufficientPermissions,
    /// The store failed.
    PersistenceError,
    /// Hashing or verification failed.
    InternalError,
    /// No signing secret is configured.
    MissingSecret,
}

impl AuthError {
    /// The HTTP status that goes with the error.
    pub open spec fn spec_status(self) -> u16 {
        match self {
            AuthError::ValidationError => 400,
            AuthError::WeakPassword => 400,
            AuthError::InvalidCredentials => 401,
            AuthError::TokenInvalid => 401,
            AuthError::TokenExpired => 401,
            AuthError::UserNotFound => 401,
            AuthError::TokenNotFound => 401,
            AuthError::InsufficientPermissions => 403,
            AuthError::NotFound => 404,
            AuthError::AlreadyExists => 409,
            AuthError::AccountLocked { .. } => 423,
            AuthError::PersistenceError => 500,
            AuthError::InternalError => 500,
            AuthError::MissingSecret => 500,
        }
    }

    /// The error code that goes with the error.
    pub open spec fn spec_code(self) -> Seq<char> {
        match self {
            AuthError::ValidationError => ErrorCode::VALIDATION_ERROR@,
            AuthError::WeakPassword => ErrorCode::WEAK_PASSWORD@,
            AuthError::InvalidCredentials => ErrorCode::INVALID_CREDENTIALS@,
            AuthError::TokenInvalid => ErrorCode::TOKEN_INVALID@,
            AuthError::TokenExpired => ErrorCode::TOKEN_INVALID@,
            AuthError::UserNotFound => ErrorCode::USER_NOT_FOUND@,
            AuthError::TokenNotFound => ErrorCode::TOKEN_NOT_FOUND@,
            AuthError::InsufficientPermissions => ErrorCode::INSUFFICIENT_PERMISSIONS@,
            AuthError::NotFound => ErrorCode::USER_NOT_FOUND@,
            AuthError::AlreadyExists => ErrorCode::USER_ALREADY_EXISTS@,
            AuthError::AccountLocked { .. } => ErrorCode::ACCOUNT_LOCKED@,
            AuthError::PersistenceError => ErrorCode::DATABASE_ERROR@,
            AuthError::InternalError => ErrorCode::INTERNAL_SERVER_ERROR@,
            AuthError::MissingSecret => ErrorCode::JWT_ERROR@,
        }
    }

    /// The message that goes with the error. Failures inside the service
    /// all read the same, so that no detail leaks.
    pub open spec fn spec_message(self) -> Seq<char> {
        match self {
            AuthError::ValidationError => ErrorMessage::INVALID_INPUT_DATA@,
            AuthError::WeakPassword => ErrorMessage::WEAK_PASSWORD@,
            AuthError::InvalidCredentials => ErrorMessage::INVALID_CREDENTIALS@,
            AuthError::TokenInvalid => ErrorMessage::TOKEN_INVALID_OR_EXPIRED@,
            AuthError::TokenExpired => ErrorMessage::TOKEN_INVALID_OR_EXPIRED@,
            AuthError::UserNotFound => ErrorMessage::USER_NOT_FOUND@,
            AuthError::TokenNotFound => ErrorMessage::AUTH_HEADER_MISSING@,
            AuthError::InsufficientPermissions => ErrorMessage::ADMIN_ACCESS_REQUIRED@,
            AuthError::NotFound => ErrorMessage::USER_NOT_FOUND@,
            AuthError::AlreadyExists => ErrorMessage::USER_ALREADY_EXISTS@,
            AuthError::AccountLocked { .. } => ErrorMessage::ACCOUNT_LOCKED@,
            AuthError::PersistenceError => ErrorMessage::INTERNAL_SERVER_ERROR@,
            AuthError::InternalError => ErrorMessage::INTERNAL_SERVER_ERROR@,
            AuthError::MissingSecret => ErrorMessage::INTERNAL_SERVER_ERROR@,
        }
    }

    /// The token error as a request error: every fault of the token itself
    /// is `TokenInvalid`.
    pub open spec fn spec_of_token_error(e: JwtError) -> AuthError {
        match e {
            JwtError::InvalidToken(_) => AuthError::TokenInvalid,
            JwtError::TokenExpired => AuthError::TokenExpired,
            JwtError::MissingSecret => AuthError::MissingSecret,
        }
    }

    pub fn status(&self) -> (status: u16)
        ensures
            status == self.spec_status(),
    {
        match self {
            AuthError::ValidationError => 400,
            AuthError::WeakPassword => 400,
            AuthError::InvalidCredentials => 401,
            AuthError::TokenInvalid => 401,
            AuthError::TokenExpired => 401,
            AuthError::UserNotFound => 401,
            AuthError::TokenNotFound => 401,
            AuthError::InsufficientPermissions => 403,
            AuthError::NotFound => 404,
            AuthError::AlreadyExists => 409,
            AuthError::AccountLocked { .. } => 423,
            AuthError::PersistenceError => 500,
            AuthError::InternalError => 500,
            AuthError::MissingSecret => 500,
        }
    }

    pub fn code(&self) -> (code: &'static str)
        ensures
            code@ == self.spec_code(),
    {
        match self {
            AuthError::ValidationError => ErrorCode::VALIDATION_ERROR,
            AuthError::WeakPassword => ErrorCode::WEAK_PASSWORD,
            AuthError::InvalidCredentials => ErrorCode::INVALID_CREDENTIALS,
            AuthError::TokenInvalid => ErrorCode::TOKEN_INVALID,
            AuthError::TokenExpired => ErrorCode::TOKEN_INVALID,
            AuthError::UserNotFound => ErrorCode::USER_NOT_FOUND,
            AuthError::TokenNotFound => ErrorCode::TOKEN_NOT_FOUND,
            AuthError::InsufficientPermissions => ErrorCode::INSUFFICIENT_PERMISSIONS,
            AuthError::NotFound => ErrorCode::USER_NOT_FOUND,
            AuthError::AlreadyExists => ErrorCode::USER_ALREADY_EXISTS,
            AuthError::AccountLocked { .. } => ErrorCode::ACCOUNT_LOCKED,
            AuthError::PersistenceError => ErrorCode::DATABASE_ERROR,
            AuthError::InternalError => ErrorCode::INTERNAL_SERVER_ERROR,
            AuthError::MissingSecret => ErrorCode::JWT_ERROR,
        }
    }

    pub fn message(&self) -> (message: &'static str)
        ensures
            message@ == self.spec_message(),
    {
        match self {
            AuthError::ValidationError => ErrorMessage::INVALID_INPUT_DATA,
            AuthError::WeakPassword => ErrorMessage::WEAK_PASSWORD,
            AuthError::InvalidCredentials => ErrorMessage::INVALID_CREDENTIALS,
            AuthError::TokenInvalid => ErrorMessage::TOKEN_INVALID_OR_EXPIRED,
            AuthError::TokenExpired => ErrorMessage::TOKEN_INVALID_OR_EXPIRED,
            AuthError::UserNotFound => ErrorMessage::USER_NOT_FOUND,
            AuthError::TokenNotFound => ErrorMessage::AUTH_HEADER_MISSING,
            AuthError::InsufficientPermissions => ErrorMessage::ADMIN_ACCESS_REQUIRED,
            AuthError::NotFound => ErrorMessage::USER_NOT_FOUND,
            AuthError::AlreadyExists => ErrorMessage::USER_ALREADY_EXISTS,
            AuthError::AccountLocked { .. } => ErrorMessage::ACCOUNT_LOCKED,
            AuthError::PersistenceError => ErrorMessage::INTERNAL_SERVER_ERROR,
            AuthError::InternalError => ErrorMessage::INTERNAL_SERVER_ERROR,
            AuthError::MissingSecret => ErrorMessage::INTERNAL_SERVER_ERROR,
        }
    }

    pub fn of_token_error(e: JwtError) -> (r: AuthError)
        ensures
            r == Self::spec_of_token_error(e),
    {
        match e {
            JwtError::InvalidToken(_) => AuthError::TokenInvalid,
            JwtError::TokenExpired => AuthError::TokenExpired,
            JwtError::MissingSecret => AuthError::MissingSecret,
        }
    }
}

/// The write that the caller owes the store after an attempt.
#[derive(Debug, Clone, Copy, PartialEq, Eq, Structural)]
pub enum StoreAction {
    /// Nothing changed.
    Nothing,
    /// No user has the email: record a failure under the email all the
    /// same, so that the attempt costs what an attempt on a real account
    /// costs.
    RecordUnknownFailure,
    /// Store the lockout fields of the returned record.
    SaveLockout,
    /// Store the lockout fields of the returned record, and the time of
    /// the attempt as the last sign-in.
    SaveLogin,
}

/// Who was authenticated, and in which role.
#[derive(Debug, Clone, PartialEq, Eq)]
pub struct Granted {
    pub identity: Identity,
    pub role: String,
}

/// The mathematical content of a [`Granted`].
pub struct GrantedView {
    pub identity: IdentityView,
    pub role: Seq<char>,
}

impl View for Granted {
    type V = GrantedView;

    open spec fn view(&self) -> GrantedView {
        GrantedView { identity: self.identity@, role: self.role@ }
    }
}

/// What an attempt came to.
#[derive(Debug, PartialEq, Eq)]
pub struct AuthOutcome {
    /// The verdict.
    pub result: Result<Granted, AuthError>,
    /// The credential record as it stands after the attempt.
    pub record: Option<CredentialRecord>,
    /// The write that is owed.
    pub action: StoreAction,
}

/// The mathematical content of an [`AuthOutcome`].
pub struct OutcomeView {
    pub result: Result<GrantedView, AuthError>,
    pub record: Option<CredentialView>,
    pub action: StoreAction,
}

impl View for AuthOutcome {
    type V = OutcomeView;

    open spec fn view(&self) -> OutcomeView {
        OutcomeView {
            result: match self.result {
                Ok(granted) => Ok(granted@),
                Err(e) => Err(e),
            },
            record: seen(self.record),
            action: self.action,
        }
    }
}

/// What a sign-up hands to the stores: the identity to create first, and
/// the hash for the credential record to create second.
#[derive(Debug, Clone, PartialEq, Eq)]
pub struct Registration {
    pub email: String,
    pub name: String,
    pub password_hash: String,
}

pub struct Authenticator;

impl Authenticator {
    /// The role of a user whose role was looked up: the one found, or
    /// `"user"` where none was found.
    pub open spec fn role_or_default(role: Option<Seq<char>>) -> Seq<char> {
        match role {
            Some(name) => name,
            None => Roles::USER@,
        }
    }

    /// What bcrypt's answer on a password means for an attempt: `None`
    /// where verification itself failed.
    pub open spec fn verdict_of(verified: Result<bool, PasswordError>) -> Option<bool> {
        match verified {
            Ok(matches) => Some(matches),
            Err(_) => None,
        }
    }

    /// The refusal of an attempt, with the record as it is left and the
    /// write that is owed.
    pub open spec fn refused(
        e: AuthError,
        record: Option<CredentialView>,
        action: StoreAction,
    ) -> OutcomeView {
        OutcomeView { result: Err(e), record, action }
    }

    /// What an attempt at `now` comes to.
    ///
    /// `user` and `record` are what the lookups by email found, `role` what
    /// the role lookup found, and `verdict` what checking the password
    /// against the record's hash gives (it counts only where the attempt
    /// gets that far).
    ///
    /// - No user: the failure is recorded under the email all the same, and
    ///   the answer is `InvalidCredentials`.
    /// - A user without a credential record: `InvalidCredentials`.
    /// - A lock that holds at `now`: `AccountLocked` with the minutes left,
    ///   and the record stays untouched.
    /// - Otherwise a lock whose window has run out is cleared first. A
    ///   wrong password is counted and answered with `InvalidCredentials`;
    ///   the right one clears the counters and grants access in the role
    ///   found, or as `"user"`; a failed verification is an
    ///   `InternalError` and counts as nothing.
    pub open spec fn outcome(
        user: Option<IdentityView>,
        record: Option<CredentialView>,
        role: Option<Seq<char>>,
        verdict: Option<bool>,
        now: i64,
    ) -> OutcomeView {
        match (user, record) {
            (None, None) => Self::refused(
                AuthError::InvalidCredentials,
                None,
                StoreAction::RecordUnknownFailure,
            ),
            (None, Some(rec)) => Self::refused(
                AuthError::InvalidCredentials,
                Some(rec.with_lockout(rec.lockout.after_failure(now))),
                StoreAction::RecordUnknownFailure,
            ),
            (Some(_), None) => Self::refused(
                AuthError::InvalidCredentials,
                None,
                StoreAction::Nothing,
            ),
            (Some(identity), Some(rec)) => if rec.lockout.spec_is_locked(now as int) {
                Self::refused(
                    AuthError::AccountLocked {
                        remaining_minutes: rec.lockout.reported_minutes(now as int),
                    },
                    Some(rec),
                    StoreAction::Nothing,
                )
            } else {
                let open = rec.lockout.after_check(now as int);
                match verdict {
                    Some(true) => OutcomeView {
                        result: Ok(GrantedView { identity, role: Self::role_or_default(role) }),
                        record: Some(rec.with_lockout(open.after_login(now))),
                        action: StoreAction::SaveLogin,
                    },
                    Some(false) => Self::refused(
                        AuthError::InvalidCredentials,
                        Some(rec.with_lockout(open.after_failure(now))),
                        StoreAction::SaveLockout,
                    ),
                    None => Self::refused(
                        AuthError::InternalError,
                        Some(rec.with_lockout(open)),
                        if open == rec.lockout {
                            StoreAction::Nothing
                        } else {
                            StoreAction::SaveLockout
                        },
                    ),
                }
            },
        }
    }

    /// Whether the failure count of a record, if there is one, can still
    /// grow.
    pub open spec fn countable(record: Option<CredentialRecord>) -> bool {
        record matches Some(rec) ==> rec.lockout.failure_count < i32::MAX
    }

    /// The role found by a lookup, or `"user"` where none was found.
    pub fn resolve_role(found: Option<String>) -> (role: String)
        ensures
            role@ == Self::role_or_default(seen(found)),
    {
        match found {
            Some(name) => name,
            None => Roles::USER.to_owned(),
        }
    }

    /// Decides an attempt at `now` once the password has been checked: see
    /// [`Authenticator::outcome`]. `verified` is read only where the
    /// attempt gets as far as the password.
    pub fn decide(
        user: Option<Identity>,
        record: Option<CredentialRecord>,
        role: Option<String>,
        verified: Result<bool, PasswordError>,
        now: i64,
    ) -> (out: AuthOutcome)
        requires
            Self::countable(record),
        ensures
            out@ == Self::outcome(
                seen(user),
                seen(record),
                seen(role),
                Self::verdict_of(verified),
                now,
            ),
    {
        let identity = match user {
            Some(identity) => identity,
            None => {
                let record = match record {
                    Some(mut rec) => {
                        rec.lockout.record_failure(now);
                        Some(rec)
                    },
                    None => None,
                };
                return AuthOutcome {
                    result: Err(AuthError::InvalidCredentials),
                    record,
                    action: StoreAction::RecordUnknownFailure,
                };
            },
        };
        let mut rec = match record {
            Some(rec) => rec,
            None => {
                return AuthOutcome {
                    result: Err(AuthError::InvalidCredentials),
                    record: None,
                    action: StoreAction::Nothing,
                };
            },
        };
        let stored = rec.lockout;
        if rec.lockout.check(now) {
            let remaining_minutes = rec.lockout.remaining_minutes(now);
            return AuthOutcome {
                result: Err(AuthError::AccountLocked { remaining_minutes }),
                record: Some(rec),
                action: StoreAction::Nothing,
            };
        }
        match verified {
            Ok(true) => {
                rec.lockout.record_login(now);
                AuthOutcome {
                    result: Ok(Granted { identity, role: Self::resolve_role(role) }),
                    record: Some(rec),
                    action: StoreAction::SaveLogin,
                }
            },
            Ok(false) => {
                rec.lockout.record_failure(now);
                AuthOutcome {
                    result: Err(AuthError::InvalidCredentials),
                    record: Some(rec),
                    action: StoreAction::SaveLockout,
                }
            },
            Err(_) => {
                let action = if rec.lockout == stored {
                    StoreAction::Nothing
                } else {
                    StoreAction::SaveLockout
                };
                AuthOutcome { result: Err(AuthError::InternalError), record: Some(rec), action }
            },
        }
    }

    /// What checking `password` against the record comes to, where there is
    /// a record.
    pub open spec fn password_verdict(record: Option<CredentialView>, password: Seq<char>) -> Option<
        bool,
    > {
        match record {
            Some(rec) => PasswordService::spec_verify(password, rec.password_hash),
            None => None,
        }
    }

    /// Authenticates a sign-in attempt made at `now` with `password`.
    ///
    /// `user` and `record` are what the lookups by email found and `role`
    /// what the role lookup found. The password is checked against the
    /// record's hash only where a user and a record exist and no lock holds;
    /// what the attempt comes to is told by [`Authenticator::outcome`].
    pub fn authenticate(
        user: Option<Identity>,
        record: Option<CredentialRecord>,
        role: Option<String>,
        password: &str,
        now: i64,
    ) -> (out: AuthOutcome)
        requires
            Self::countable(record),
        ensures
            out@ == Self::outcome(
                seen(user),
                seen(record),
                seen(role),
                Self::password_verdict(seen(record), password@),
                now,
            ),
    {
        let asked = match (&user, &record) {
            (Some(_), Some(rec)) => !rec.lockout.is_locked(now),
            _ => false,
        };
        let verified = if asked {
            match &record {
                Some(rec) => PasswordService::verify_password(password, rec.password_hash.as_str()),
                None => Err(PasswordError::VerificationFailed),
            }
        } else {
            Err(PasswordError::VerificationFailed)
        };
        proof {
            if asked {
                let rec = record.unwrap();
                assert(PasswordService::verify_result(password@, rec.password_hash@, verified));
            }
        }
        Self::decide(user, record, role, verified, now)
    }

    /// Whether a sign-up may go ahead, and if not, why: a malformed
    /// request, a weak password and a taken email are refused, in this
    /// order.
    pub open spec fn admission(request: SignupPayload, email_taken: bool) -> Option<AuthError> {
        if ProtoValidator::signup_fault(request.email@, request.password@, request.name@)
            is Some {
            Some(AuthError::ValidationError)
        } else if !PasswordService::is_strong(request.password@) {
            Some(AuthError::WeakPassword)
        } else if email_taken {
            Some(AuthError::AlreadyExists)
        } else {
            None
        }
    }

    /// Checks a sign-up before anything is hashed or stored: see
    /// [`Authenticator::admission`].
    pub fn screen(request: &SignupPayload, email_taken: bool) -> (r: Result<(), AuthError>)
        ensures
            match Self::admission(*request, email_taken) {
                Some(e) => r matches Err(x) && x == e,
                None => r is Ok,
            },
    {
        if ProtoValidator::validate_signup_request(request).is_err() {
            return Err(AuthError::ValidationError);
        }
        if PasswordService::validate_password_strength(request.password.as_str()).is_err() {
            return Err(AuthError::WeakPassword);
        }
        if email_taken {
            return Err(AuthError::AlreadyExists);
        }
        Ok(())
    }

    /// What a sign-up that passed its checks comes to once its password
    /// has been hashed: the registration with that hash, or `InternalError`
    /// where hashing failed.
    pub fn enroll(request: &SignupPayload, hashed: Result<String, PasswordError>) -> (r: Result<
        Registration,
        AuthError,
    >)
        ensures
            match hashed {
                Ok(hash) => {
                    &&& r matches Ok(reg)
                    &&& r.unwrap().email@ == request.email@
                    &&& r.unwrap().name@ == request.name@
                    &&& r.unwrap().password_hash@ == hash@
                },
                Err(_) => r matches Err(x) && x == AuthError::InternalError,
            },
    {
        match hashed {
            Ok(password_hash) => Ok(
                Registration {
                    email: request.email.clone(),
                    name: request.name.clone(),
                    password_hash,
                },
            ),
            Err(_) => Err(AuthError::InternalError),
        }
    }

    /// Registers a new user: checks the request, the strength of the
    /// password and that the email is free, then hashes the password at the
    /// work factor `cost`.
    ///
    /// A request that fails a check is refused for the reason that
    /// [`Authenticator::admission`] gives. One that passes is refused with
    /// `InternalError` where hashing fails, as it does at a work factor
    /// that bcrypt does not accept. A registration that comes back carries
    /// the request's email and name and a hash that verifies the request's
    /// password.
    pub fn register(request: &SignupPayload, email_taken: bool, cost: u32) -> (r: Result<
        Registration,
        AuthError,
    >)
        ensures
            Self::admission(*request, email_taken) matches Some(e) ==> r matches Err(x) && x == e,
            Self::admission(*request, email_taken) is None ==> {
                &&& r matches Err(x) ==> x == AuthError::InternalError
                &&& cost < MIN_COST || cost > MAX_COST ==> r is Err
                &&& r matches Ok(reg) ==> {
                    &&& reg.email@ == request.email@
                    &&& reg.name@ == request.name@
                    &&& bcrypt_verdict(request.password@, reg.password_hash@) == Some(true)
                    &&& PasswordService::spec_verify(request.password@, reg.password_hash@)
                        == Some(true)
                }
            },
    {
        match Self::screen(request, email_taken) {
            Ok(()) => {},
            Err(e) => {
                return Err(e);
            },
        }
        let hashed = PasswordService::hash_password(request.password.as_str(), cost);
        Self::enroll(request, hashed)
    }
}

/// A sign-in with the right password on a record that is not locked clears
/// the failure count, whatever it was, and is granted.
pub proof fn law_success_resets(
    user: IdentityView,
    record: CredentialView,
    role: Option<Seq<char>>,
    now: i64,
)
    requires
        !record.lockout.locked,
    ensures
        Authenticator::outcome(Some(user), Some(record), role, Some(true), now).result is Ok,
        Authenticator::outcome(
            Some(user),
            Some(record),
            role,
            Some(true),
            now,
        ).record.unwrap().lockout.failure_count == 0,
        !Authenticator::outcome(
            Some(user),
            Some(record),
            role,
            Some(true),
            now,
        ).record.unwrap().lockout.locked,
{
}

/// While a lock holds, an attempt is refused as `AccountLocked` whatever
/// the password, and the record, its failure count included, stays as it
/// was. From the end of the window on, the lock is cleared by the attempt
/// itself, which is then judged by its password alone.
pub proof fn law_locked_attempts(
    user: IdentityView,
    record: CredentialView,
    role: Option<Seq<char>>,
    verdict: Option<bool>,
    now: i64,
)
    requires
        record.lockout.lock_engaged(),
        record.lockout.last_attempt_at is Some,
    ensures
        now < record.lockout.last_attempt_at.unwrap() + LOCK_WINDOW_SECONDS ==> {
            let out = Authenticator::outcome(Some(user), Some(record), role, verdict, now);
            &&& out.result matches Err(AuthError::AccountLocked { remaining_minutes })
            &&& out.record == Some(record)
            &&& out.action == StoreAction::Nothing
        },
        now >= record.lockout.last_attempt_at.unwrap() + LOCK_WINDOW_SECONDS ==> {
            let out = Authenticator::outcome(Some(user), Some(record), role, verdict, now);
            &&& !(out.result matches Err(AuthError::AccountLocked { remaining_minutes }))
            &&& verdict == Some(true) ==> out.result is Ok
                && out.record.unwrap().lockout.failure_count == 0
            &&& verdict == Some(false) ==> out.record.unwrap().lockout.failure_count == 1
        },
{
}

/// A wrong password on a record whose lock is not engaged is counted: the
/// answer is `InvalidCredentials`, and the record holds one failure more,
/// stamped with the time of the attempt.
pub proof fn law_failure_is_counted(
    user: IdentityView,
    record: CredentialView,
    role: Option<Seq<char>>,
    now: i64,
)
    requires
        !record.lockout.lock_engaged(),
    ensures
        Authenticator::outcome(Some(user), Some(record), role, Some(false), now)
            == Authenticator::refused(
            AuthError::InvalidCredentials,
            Some(record.with_lockout(record.lockout.after_failure(now))),
            StoreAction::SaveLockout,
        ),
{
}

/// On a record that was fresh, one failed attempt fewer than the threshold
/// leaves the next attempt to be judged by its password, whenever it is
/// made; the attempt that reaches the threshold locks the record, and every
/// attempt made before the window has passed since then is refused as
/// `AccountLocked`, the right password included.
pub proof fn law_threshold_attempts(
    user: IdentityView,
    record: CredentialView,
    times: Seq<i64>,
    role: Option<Seq<char>>,
    verdict: Option<bool>,
    now: i64,
)
    requires
        record.lockout == LockoutState::fresh().after_failures(times),
    ensures
        times.len() == AccountLock::MAX_FAILED_ATTEMPTS - 1 ==> {
            let out = Authenticator::outcome(Some(user), Some(record), role, verdict, now);
            &&& !(out.result matches Err(AuthError::AccountLocked { remaining_minutes }))
            &&& verdict == Some(true) ==> out.result is Ok
            &&& verdict == Some(false) ==> out.record.unwrap().lockout.locked
        },
        times.len() == AccountLock::MAX_FAILED_ATTEMPTS && now < times.last()
            + LOCK_WINDOW_SECONDS ==> {
            let out = Authenticator::outcome(Some(user), Some(record), role, verdict, now);
            &&& out.result matches Err(AuthError::AccountLocked { remaining_minutes })
            &&& out.record == Some(record)
        },
{
    law_threshold_locks(times, now);
    if times.len() <= AccountLock::MAX_FAILED_ATTEMPTS {
        lemma_failures_are_counted(times);
    }
}

/// An attempt under an email that no user has is answered like a wrong
/// password, every time it is made, and there is no record to change.
pub proof fn law_unknown_user(role: Option<Seq<char>>, verdict: Option<bool>, now: i64)
    ensures
        Authenticator::outcome(None, None, role, verdict, now) == Authenticator::refused(
            AuthError::InvalidCredentials,
            None,
            StoreAction::RecordUnknownFailure,
        ),
{
}

/// Every attempt keeps the invariant of the lockout fields: a record whose
/// fields are well-formed before an attempt holds well-formed fields after
/// it.
pub proof fn law_attempts_keep_invariant(
    user: Option<IdentityView>,
    record: CredentialView,
    role: Option<Seq<char>>,
    verdict: Option<bool>,
    now: i64,
)
    requires
        record.lockout.wf(),
        record.lockout.failure_count < i32::MAX,
    ensures
        Authenticator::outcome(user, Some(record), role, verdict, now).record is Some,
        Authenticator::outcome(user, Some(record), role, verdict, now).record.unwrap().lockout.wf(),
{
}

} // verus!
