//! Credential authentication, account lockout and bearer-token lifecycle
//! for the dashboard's sign-in service.
//!
//! The library decides; it never reads a store or a clock. Its callers look
//! records up, hand them over together with the current time, and store
//! what comes back.
//!
//! - [`utils::password`]: hashing, verification and strength of passwords.
//! - [`lockout`]: the failure count and the time-windowed lock of a
//!   credential.
//! - [`authenticator`]: what a sign-in attempt and a sign-up come to.
//! - [`utils::jwt`]: issuing, validating and refreshing tokens.
//! - [`handlers`]: the operations that the service offers, built from the
//!   above.
//! - [`config`]: the service's settings.

pub mod authenticator;
pub mod config;
pub mod constants;
pub mod handlers;
pub mod lockout;
pub mod models;
pub mod utils;

pub use constants::{AccountLock, ErrorCode, ErrorMessage, Roles};
pub use lockout::{LockStatus, LockoutState};
pub use models::{
    ApiResponse, AuthPayload, CredentialRecord, ErrorBody, Identity, LogoutPayload, SignupPayload,
    TokenRequest,
};
