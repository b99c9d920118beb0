//! Fixed names and limits shared by every component.

use vstd::prelude::*;

verus! {

/// Role names carried in token claims.
pub struct Roles;

impl Roles {
    /// Regular user with basic access.
    pub const USER: &'static str = "user";

    /// Administrator with full access.
    pub const ADMIN: &'static str = "admin";

    /// Super administrator with all permissions.
    pub const SUPER_ADMIN: &'static str = "super_admin";
}

/// Limits of the account lockout policy.
pub struct AccountLock;

impl AccountLock {
    /// Number of failed sign-in attempts at which an account is locked.
    pub const MAX_FAILED_ATTEMPTS: i32 = 5;

    /// Minutes after the last failed attempt at which a locked account
    /// unlocks by itself.
    pub const AUTO_UNLOCK_MINUTES: i64 = 30;
}

/// Machine-readable codes of the errors that the service reports.
pub struct ErrorCode;

impl ErrorCode {
    pub const TOKEN_INVALID: &'static str = "TOKEN_INVALID";

    pub const INVALID_TOKEN: &'static str = "INVALID_TOKEN";

    pub const TOKEN_REFRESH_FAILED: &'static str = "TOKEN_REFRESH_FAILED";

    pub const SIGNUP_FAILED: &'static str = "SIGNUP_FAILED";

    pub const SIGNIN_FAILED: &'static str = "SIGNIN_FAILED";

    pub const VALIDATION_ERROR: &'static str = "VALIDATION_ERROR";

    pub const WEAK_PASSWORD: &'static str = "WEAK_PASSWORD";

    pub const USER_ALREADY_EXISTS: &'static str = "USER_ALREADY_EXISTS";

    pub const DATABASE_ERROR: &'static str = "DATABASE_ERROR";

    pub const INTERNAL_SERVER_ERROR: &'static str = "INTERNAL_SERVER_ERROR";

    pub const INVALID_CREDENTIALS: &'static str = "INVALID_CREDENTIALS";

    pub const USER_NOT_FOUND: &'static str = "USER_NOT_FOUND";

    pub const ACCOUNT_LOCKED: &'static str = "ACCOUNT_LOCKED";

    pub const JWT_ERROR: &'static str = "JWT_ERROR";

    pub const TOKEN_NOT_FOUND: &'static str = "TOKEN_NOT_FOUND";

    pub const INSUFFICIENT_PERMISSIONS: &'static str = "INSUFFICIENT_PERMISSIONS";

    pub const CANNOT_DISABLE_SELF: &'static str = "CANNOT_DISABLE_SELF";

    pub const CANNOT_DISABLE_SUPER_ADMIN: &'static str = "CANNOT_DISABLE_SUPER_ADMIN";
}

/// Texts of the errors that the service reports.
pub struct ErrorMessage;

impl ErrorMessage {
    pub const TOKEN_INVALID_OR_EXPIRED: &'static str = "Token is invalid or expired";

    pub const UNABLE_TO_REFRESH_TOKEN: &'static str = "Unable to refresh token";

    pub const SIGNUP_FAILED: &'static str = "Failed to create account";

    pub const SIGNIN_FAILED: &'static str = "Failed to sign in";

    pub const INVALID_INPUT_DATA: &'static str = "Invalid input data provided";

    pub const WEAK_PASSWORD: &'static str =
        "Password must be at least 8 characters with letters and numbers";

    pub const USER_ALREADY_EXISTS: &'static str = "User with this email already exists";

    pub const INTERNAL_SERVER_ERROR: &'static str = "Internal server error occurred";

    pub const INVALID_CREDENTIALS: &'static str = "Invalid email or password";

    pub const USER_NOT_FOUND: &'static str = "User not found";

    pub const ACCOUNT_LOCKED: &'static str =
        "Account is locked due to too many failed login attempts";

    pub const TOKEN_REFRESH_FAILED: &'static str = "Failed to refresh token";

    pub const ADMIN_ACCESS_REQUIRED: &'static str = "Admin access required";

    pub const AUTH_HEADER_MISSING: &'static str = "Missing or invalid authorization header";
}

} // verus!
