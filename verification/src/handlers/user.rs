//! What a user's own profile operations decide.

use vstd::prelude::*;

use crate::authenticator::AuthError;
use crate::handlers::admin::{bearer_token, spec_bearer_token};
use crate::utils::jwt::{uuid_of_text, JwtService};

verus! {

/// What `char::is_whitespace` answers for a character: whether Unicode
/// gives it the `White_Space` property.
pub uninterp spec fn is_whitespace(c: char) -> bool;

/// `char::is_whitespace` depends on the character alone.
pub assume_specification[ char::is_whitespace ](c: char) -> (r: bool)
    ensures
        r == is_whitespace(c),
;

/// A change of a user's own profile.
#[derive(Debug, Clone, PartialEq, Eq)]
pub struct UserUpdateRequest {
    pub name: Option<String>,
    pub avatar_path: Option<String>,
}

/// Whether a text is empty once the whitespace around it is gone.
pub open spec fn is_blank(text: Seq<char>) -> bool {
    forall|i: int| 0 <= i < text.len() ==> is_whitespace(#[trigger] text[i])
}

/// Whether a text is empty once the whitespace around it is gone.
pub fn blank(text: &str) -> (r: bool)
    ensures
        r == is_blank(text@),
{
    let mut all = true;
    for c in it: text.chars()
        invariant
            it.seq() == text@,
            all <==> forall|i: int| 0 <= i < it.index() ==> is_whitespace(#[trigger] text@[i]),
    {
        if !c.is_whitespace() {
            all = false;
        }
    }
    all
}

/// A profile change may leave the name as it is, but may not blank it.
pub fn validate_update(request: &UserUpdateRequest) -> (r: Result<(), AuthError>)
    ensures
        match request.name {
            Some(name) if is_blank(name@) => r matches Err(e) && e == AuthError::ValidationError,
            _ => r is Ok,
        },
{
    match &request.name {
        Some(name) => {
            if blank(name.as_str()) {
                return Err(AuthError::ValidationError);
            }
            Ok(())
        },
        None => Ok(()),
    }
}

/// The id of the user that a request comes from, read at `now` from the
/// authorization header. Without a header there is no token to be found;
/// a header without a bearer token, and a token that is not valid or names
/// no user id, are refused as `TokenInvalid`.
pub fn extract_user_id_from_token(jwt: &JwtService, authorization: Option<&str>, now: i64) -> (r:
    Result<u128, AuthError>)
    ensures
        match authorization {
            None => r matches Err(e) && e == AuthError::TokenNotFound,
            Some(header) => match spec_bearer_token(header@) {
                None => r matches Err(e) && e == AuthError::TokenInvalid,
                Some(token) => match jwt.spec_validate(token, now) {
                    Err(_) => r matches Err(e) && e == AuthError::TokenInvalid,
                    Ok(claims) => match uuid_of_text(claims.sub) {
                        Some(id) => r matches Ok(v) && v == id,
                        None => r matches Err(e) && e == AuthError::TokenInvalid,
                    },
                },
            },
        },
{
    let header = match authorization {
        Some(header) => header,
        None => {
            return Err(AuthError::TokenNotFound);
        },
    };
    let token = match bearer_token(header) {
        Some(token) => token,
        None => {
            return Err(AuthError::TokenInvalid);
        },
    };
    match jwt.extract_user_id(token, now) {
        Ok(id) => Ok(id),
        Err(_) => Err(AuthError::TokenInvalid),
    }
}

} // verus!
