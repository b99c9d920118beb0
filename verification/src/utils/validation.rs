//! Shape checks on incoming requests.

use vstd::prelude::*;
use vstd::utf8::encode_utf8;

use crate::models::request::{AuthPayload, LogoutPayload, SignupPayload, TokenRequest};

verus! {

/// Whether `text` holds the character `wanted`.
pub fn contains_char(text: &str, wanted: char) -> (found: bool)
    ensures
        found == text@.contains(wanted),
{
    let mut found = false;
    for c in it: text.chars()
        invariant
            it.seq() == text@,
            found <==> exists|i: int| 0 <= i < it.index() && text@[i] == wanted,
    {
        if c == wanted {
            found = true;
        }
    }
    found
}

/// Validates the shape of requests before any work is done on them.
pub struct ProtoValidator;

impl ProtoValidator {
    /// What is wrong with a sign-up request, if anything. The first rule
    /// that is broken decides.
    pub open spec fn signup_fault(email: Seq<char>, password: Seq<char>, name: Seq<char>) -> Option<
        Seq<char>,
    > {
        if email.len() == 0 {
            Some("Email is required"@)
        } else if encode_utf8(password).len() < 8 {
            Some("Password must be at least 8 characters"@)
        } else if name.len() == 0 {
            Some("Name is required"@)
        } else if !email.contains('@') {
            Some("Invalid email format"@)
        } else {
            None
        }
    }

    /// What is wrong with a sign-in request, if anything. The first rule
    /// that is broken decides.
    pub open spec fn signin_fault(email: Seq<char>, password: Seq<char>) -> Option<Seq<char>> {
        if email.len() == 0 {
            Some("Email is required"@)
        } else if password.len() == 0 {
            Some("Password is required"@)
        } else if !email.contains('@') {
            Some("Invalid email format"@)
        } else {
            None
        }
    }

    /// What is wrong with a request that carries a token, if anything.
    pub open spec fn token_fault(token: Seq<char>) -> Option<Seq<char>> {
        if token.len() == 0 {
            Some("Token is required"@)
        } else {
            None
        }
    }

    /// Whether `r` reports exactly `fault`.
    pub open spec fn reports(r: Result<(), String>, fault: Option<Seq<char>>) -> bool {
        match fault {
            Some(message) => r matches Err(m) && m@ == message,
            None => r is Ok,
        }
    }

    /// A sign-up needs an email with an `@`, a password of at least eight
    /// bytes and a name.
    pub fn validate_signup_request(request: &SignupPayload) -> (r: Result<(), String>)
        ensures
            Self::reports(
                r,
                Self::signup_fault(request.email@, request.password@, request.name@),
            ),
    {
        if request.email.as_str().is_empty() {
            return Err("Email is required".to_owned());
        }
        if request.password.as_str().as_bytes().len() < 8 {
            return Err("Password must be at least 8 characters".to_owned());
        }
        if request.name.as_str().is_empty() {
            return Err("Name is required".to_owned());
        }
        if !contains_char(request.email.as_str(), '@') {
            return Err("Invalid email format".to_owned());
        }
        Ok(())
    }

    /// A sign-in needs an email with an `@` and a password.
    pub fn validate_signin_request(request: &AuthPayload) -> (r: Result<(), String>)
        ensures
            Self::reports(r, Self::signin_fault(request.email@, request.password@)),
    {
        if request.email.as_str().is_empty() {
            return Err("Email is required".to_owned());
        }
        if request.password.as_str().is_empty() {
            return Err("Password is required".to_owned());
        }
        if !contains_char(request.email.as_str(), '@') {
            return Err("Invalid email format".to_owned());
        }
        Ok(())
    }

    /// A sign-out needs a token.
    pub fn validate_logout_request(request: &LogoutPayload) -> (r: Result<(), String>)
        ensures
            Self::reports(r, Self::token_fault(request.token@)),
    {
        Self::require_token(request.token.as_str())
    }

    /// A token verification needs a token.
    pub fn validate_token_verify_request(request: &TokenRequest) -> (r: Result<(), String>)
        ensures
            Self::reports(r, Self::token_fault(request.token@)),
    {
        Self::require_token(request.token.as_str())
    }

    /// A token description needs a token.
    pub fn validate_token_info_request(request: &TokenRequest) -> (r: Result<(), String>)
        ensures
            Self::reports(r, Self::token_fault(request.token@)),
    {
        Self::require_token(request.token.as_str())
    }

    /// A token refresh needs a token.
    pub fn validate_token_refresh_request(request: &TokenRequest) -> (r: Result<(), String>)
        ensures
            Self::reports(r, Self::token_fault(request.token@)),
    {
        Self::require_token(request.token.as_str())
    }

    fn require_token(token: &str) -> (r: Result<(), String>)
        ensures
            Self::reports(r, Self::token_fault(token@)),
    {
        if token.is_empty() {
            return Err("Token is required".to_owned());
        }
        Ok(())
    }
}

} // verus!
