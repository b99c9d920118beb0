//! What callers send.

use vstd::prelude::*;

verus! {

/// A sign-in request.
#[derive(Debug, Clone, PartialEq, Eq)]
pub struct AuthPayload {
    pub email: String,
    pub password: String,
}

/// A sign-up request.
#[derive(Debug, Clone, PartialEq, Eq)]
pub struct SignupPayload {
    pub email: String,
    pub password: String,
    pub name: String,
}

/// A sign-out request.
#[derive(Debug, Clone, PartialEq, Eq)]
pub struct LogoutPayload {
    pub token: String,
}

/// A request to verify, describe or refresh a token.
#[derive(Debug, Clone, PartialEq, Eq)]
pub struct TokenRequest {
    pub token: String,
}

} // verus!
