//! The stored records that authentication reads.

use vstd::prelude::*;

use crate::lockout::LockoutState;

verus! {

/// A user as the identity store knows them. The id is the user's UUID as a
/// 128-bit number.
#[derive(Debug, Clone, PartialEq, Eq)]
pub struct Identity {
    pub id: u128,
    pub email: String,
    pub name: String,
}

/// The mathematical content of an [`Identity`].
pub struct IdentityView {
    pub id: u128,
    pub email: Seq<char>,
    pub name: Seq<char>,
}

impl View for Identity {
    type V = IdentityView;

    open spec fn view(&self) -> IdentityView {
        IdentityView { id: self.id, email: self.email@, name: self.name@ }
    }
}

/// The authentication material stored for an identity.
#[derive(Debug, Clone, PartialEq, Eq)]
pub struct CredentialRecord {
    pub user_id: u128,
    pub email: String,
    pub password_hash: String,
    pub email_verified: bool,
    pub lockout: LockoutState,
}

/// The mathematical content of a [`CredentialRecord`].
pub struct CredentialView {
    pub user_id: u128,
    pub email: Seq<char>,
    pub password_hash: Seq<char>,
    pub email_verified: bool,
    pub lockout: LockoutState,
}

impl View for CredentialRecord {
    type V = CredentialView;

    open spec fn view(&self) -> CredentialView {
        CredentialView {
            user_id: self.user_id,
            email: self.email@,
            password_hash: self.password_hash@,
            email_verified: self.email_verified,
            lockout: self.lockout,
        }
    }
}

impl CredentialView {
    /// The record with other lockout fields.
    pub open spec fn with_lockout(self, lockout: LockoutState) -> CredentialView {
        CredentialView { lockout, ..self }
    }
}

/// The content of a value that may be absent.
pub open spec fn seen<T: View>(value: Option<T>) -> Option<T::V> {
    match value {
        Some(v) => Some(v@),
        None => None,
    }
}

impl CredentialRecord {
    /// The record created at sign-up: the email is not yet verified and the
    /// lockout fields are zeroed.
    pub fn new(user_id: u128, email: String, password_hash: String) -> (record: CredentialRecord)
        ensures
            record@ == (CredentialView {
                user_id,
                email: email@,
                password_hash: password_hash@,
                email_verified: false,
                lockout: LockoutState::fresh(),
            }),
            record.lockout.wf(),
    {
        CredentialRecord {
            user_id,
            email,
            password_hash,
            email_verified: false,
            lockout: LockoutState::new(),
        }
    }
}

} // verus!
