use venomous_dashboard_auth::config::{parse_i64, parse_u32, AuthConfig};
use venomous_dashboard_auth::utils::jwt::JwtError;
use venomous_dashboard_auth::utils::{JwtService, PasswordService};
use venomous_dashboard_auth::utils::validation::contains_char;
use venomous_dashboard_auth::utils::ProtoValidator;
use venomous_dashboard_auth::{
    ApiResponse, AuthPayload, ErrorBody, ErrorCode, ErrorMessage, LogoutPayload, Roles,
    SignupPayload, TokenRequest,
};

fn signup(email: &str, password: &str, name: &str) -> SignupPayload {
    SignupPayload { email: email.to_string(), password: password.to_string(), name: name.to_string() }
}

fn signin(email: &str, password: &str) -> AuthPayload {
    AuthPayload { email: email.to_string(), password: password.to_string() }
}

#[test]
fn signup_request_rules() {
    assert_eq!(ProtoValidator::validate_signup_request(&signup("a@b.c", "12345678", "A")), Ok(()));
    assert_eq!(
        ProtoValidator::validate_signup_request(&signup("", "short", "")),
        Err("Email is required".to_string())
    );
    assert_eq!(
        ProtoValidator::validate_signup_request(&signup("ab.c", "1234567", "")),
        Err("Password must be at least 8 characters".to_string())
    );
    assert_eq!(
        ProtoValidator::validate_signup_request(&signup("ab.c", "12345678", "")),
        Err("Name is required".to_string())
    );
    assert_eq!(
        ProtoValidator::validate_signup_request(&signup("ab.c", "12345678", "A")),
        Err("Invalid email format".to_string())
    );
    assert_eq!(ProtoValidator::validate_signup_request(&signup("@", "éééé", "A")), Ok(()));
}

#[test]
fn signin_request_rules() {
    assert_eq!(ProtoValidator::validate_signin_request(&signin("a@b.c", "x")), Ok(()));
    assert_eq!(
        ProtoValidator::validate_signin_request(&signin("", "")),
        Err("Email is required".to_string())
    );
    assert_eq!(
        ProtoValidator::validate_signin_request(&signin("ab.c", "")),
        Err("Password is required".to_string())
    );
    assert_eq!(
        ProtoValidator::validate_signin_request(&signin("ab.c", "x")),
        Err("Invalid email format".to_string())
    );
}

#[test]
fn token_request_rules() {
    let empty = TokenRequest { token: String::new() };
    let full = TokenRequest { token: "t".to_string() };
    let required = Err("Token is required".to_string());
    assert_eq!(ProtoValidator::validate_token_verify_request(&empty), required);
    assert_eq!(ProtoValidator::validate_token_info_request(&empty), required);
    assert_eq!(ProtoValidator::validate_token_refresh_request(&empty), required);
    assert_eq!(ProtoValidator::validate_logout_request(&LogoutPayload { token: String::new() }), required);
    assert_eq!(ProtoValidator::validate_token_verify_request(&full), Ok(()));
    assert_eq!(ProtoValidator::validate_token_info_request(&full), Ok(()));
    assert_eq!(ProtoValidator::validate_token_refresh_request(&full), Ok(()));
    assert_eq!(ProtoValidator::validate_logout_request(&LogoutPayload { token: "t".to_string() }), Ok(()));
}

#[test]
fn contains_char_finds_characters() {
    assert!(contains_char("a@b", '@'));
    assert!(contains_char("@", '@'));
    assert!(!contains_char("ab", '@'));
    assert!(!contains_char("", '@'));
    assert!(contains_char("naïve", 'ï'));
}

#[test]
fn names_and_codes() {
    assert_eq!(Roles::USER, "user");
    assert_eq!(Roles::ADMIN, "admin");
    assert_eq!(Roles::SUPER_ADMIN, "super_admin");
    assert_eq!(ErrorCode::TOKEN_INVALID, "TOKEN_INVALID");
    assert_eq!(ErrorCode::ACCOUNT_LOCKED, "ACCOUNT_LOCKED");
    assert_eq!(ErrorMessage::INVALID_CREDENTIALS, "Invalid email or password");
}

#[test]
fn error_body() {
    assert_eq!(
        ApiResponse::error("ACCOUNT_LOCKED", "locked"),
        ErrorBody { success: false, code: "ACCOUNT_LOCKED".to_string(), message: "locked".to_string() }
    );
}

#[test]
fn parse_u32_agrees_with_std() {
    let cases = [
        "", "+", "-", "0", "+0", "-0", "007", "12", "+12", "-12", "4294967295", "4294967296",
        "+4294967295", "99999999999999999999999999", " 12", "12 ", "1_2", "1.5", "abc", "１２",
        "++1", "+-1", "0x10", "٣", "10", "31",
    ];
    for text in cases {
        assert_eq!(parse_u32(text), text.parse::<u32>().ok(), "{:?}", text);
    }
    assert_eq!(parse_u32("4294967295"), Some(u32::MAX));
    assert_eq!(parse_u32("+12"), Some(12));
    assert_eq!(parse_u32("4294967296"), None);
}

#[test]
fn parse_i64_agrees_with_std() {
    let cases = [
        "", "+", "-", "0", "+0", "-0", "007", "-007", "24", "+24", "-24", "9223372036854775807",
        "9223372036854775808", "-9223372036854775808", "-9223372036854775809",
        "+9223372036854775807", "99999999999999999999999999999999999999999", " 1", "1 ", "--1",
        "-+1", "1-", "abc", "1e3", "١",
    ];
    for text in cases {
        assert_eq!(parse_i64(text), text.parse::<i64>().ok(), "{:?}", text);
    }
    assert_eq!(parse_i64("-9223372036854775808"), Some(i64::MIN));
    assert_eq!(parse_i64("9223372036854775807"), Some(i64::MAX));
    assert_eq!(parse_i64("-24"), Some(-24));
}

#[test]
fn settings_fall_back_to_defaults() {
    assert_eq!(PasswordService::get_cost(None), 12);
    assert_eq!(PasswordService::get_cost(Some("10")), 10);
    assert_eq!(PasswordService::get_cost(Some("ten")), 12);
    assert_eq!(PasswordService::get_cost(Some("-4")), 12);
    assert_eq!(JwtService::get_expiration_hours(None), 24);
    assert_eq!(JwtService::get_expiration_hours(Some("1")), 1);
    assert_eq!(JwtService::get_expiration_hours(Some("-2")), -2);
    assert_eq!(JwtService::get_expiration_hours(Some("1h")), 24);
}

#[test]
fn settings_need_a_secret() {
    assert!(matches!(
        AuthConfig::from_settings(None, Some("1"), Some("4")),
        Err(JwtError::MissingSecret)
    ));
    let config = AuthConfig::from_settings(Some("k".to_string()), Some("2"), None).unwrap();
    assert_eq!(config.jwt_secret, "k");
    assert_eq!(config.jwt_expiration_hours, 2);
    assert_eq!(config.bcrypt_cost, 12);
    let service = config.jwt_service();
    assert_eq!(service.expires_at(100), 100 + 7200);
}
