use jsonwebtoken::{encode, EncodingKey, Header};
use serde_json::Value;
use uuid::Uuid;
use venomous_dashboard_auth::authenticator::AuthError;
use venomous_dashboard_auth::handlers::token::{
    token_info, token_refresh, token_verify, TokenInfo,
};
use venomous_dashboard_auth::utils::jwt::{
    Claims, JwtError, JwtService, RawClaims, TokenFault, DEFAULT_EXPIRATION_HOURS, ISSUER,
};
use venomous_dashboard_auth::{Identity, TokenRequest};

const SECRET: &str = "test-secret-key";
const NOW: i64 = 1_700_000_000;
const USER: &str = "550e8400-e29b-41d4-a716-446655440000";

fn user_id() -> u128 {
    Uuid::parse_str(USER).unwrap().as_u128()
}

fn service() -> JwtService {
    JwtService::new(SECRET.to_string(), 24)
}

fn craft(fields: &[(&str, Value)], secret: &str) -> String {
    let mut body = serde_json::Map::new();
    for (name, value) in fields {
        body.insert(name.to_string(), value.clone());
    }
    encode(&Header::default(), &body, &EncodingKey::from_secret(secret.as_bytes())).unwrap()
}

fn full_fields(sub: &str, exp: i64, iss: &str) -> Vec<(&'static str, Value)> {
    vec![
        ("sub", Value::from(sub)),
        ("email", Value::from("test@example.com")),
        ("role", Value::from("user")),
        ("exp", Value::from(exp)),
        ("iat", Value::from(NOW)),
        ("iss", Value::from(iss)),
    ]
}

#[test]
fn constants_of_the_token_service() {
    assert_eq!(ISSUER, "venomous-dashboard-auth");
    assert_eq!(DEFAULT_EXPIRATION_HOURS, 24);
}

#[test]
fn issued_token_carries_claims() {
    let token = service().generate_token(user_id(), "test@example.com", "admin", NOW).unwrap();
    assert_ne!(token, SECRET);
    assert_eq!(token.split('.').count(), 3);
    let claims = service().validate_token(&token, NOW).unwrap();
    assert_eq!(
        claims,
        Claims {
            sub: USER.to_string(),
            email: "test@example.com".to_string(),
            role: "admin".to_string(),
            exp: NOW + 24 * 3600,
            iat: NOW,
            iss: "venomous-dashboard-auth".to_string(),
        }
    );
}

#[test]
fn token_is_valid_up_to_its_expiry() {
    let token = service().generate_token(user_id(), "test@example.com", "user", NOW).unwrap();
    let exp = NOW + 24 * 3600;
    assert!(service().validate_token(&token, exp - 1).is_ok());
    assert!(service().validate_token(&token, exp).is_ok());
    assert_eq!(service().validate_token(&token, exp + 1), Err(JwtError::TokenExpired));
    assert_eq!(service().validate_token(&token, exp + 100_000), Err(JwtError::TokenExpired));
    assert!(!service().is_token_expired(&token, exp));
    assert!(service().is_token_expired(&token, exp + 1));
}

#[test]
fn other_secret_is_invalid_signature() {
    let token = service().generate_token(user_id(), "test@example.com", "user", NOW).unwrap();
    let other = JwtService::new("another-secret".to_string(), 24);
    assert_eq!(
        other.validate_token(&token, NOW),
        Err(JwtError::InvalidToken(TokenFault::InvalidSignature))
    );
    assert!(other.is_token_expired(&token, NOW));
    assert_eq!(
        other.extract_email(&token, NOW),
        Err(JwtError::InvalidToken(TokenFault::InvalidSignature))
    );
}

#[test]
fn tampered_token_is_refused() {
    let token = service().generate_token(user_id(), "test@example.com", "user", NOW).unwrap();
    let mut parts: Vec<String> = token.split('.').map(|p| p.to_string()).collect();
    let forged = craft(&full_fields(USER, NOW + 10, ISSUER), "attacker");
    parts[1] = forged.split('.').nth(1).unwrap().to_string();
    let tampered = parts.join(".");
    assert_eq!(
        service().validate_token(&tampered, NOW),
        Err(JwtError::InvalidToken(TokenFault::InvalidSignature))
    );
}

#[test]
fn text_that_is_no_token_is_malformed() {
    assert_eq!(
        service().validate_token("invalid-token", NOW),
        Err(JwtError::InvalidToken(TokenFault::Malformed))
    );
    assert_eq!(
        service().validate_token("", NOW),
        Err(JwtError::InvalidToken(TokenFault::Malformed))
    );
    assert_eq!(
        service().validate_token("a.b.c", NOW),
        Err(JwtError::InvalidToken(TokenFault::Malformed))
    );
}

#[test]
fn other_issuer_is_refused() {
    let token = craft(&full_fields(USER, NOW + 10, "someone-else"), SECRET);
    assert_eq!(
        service().validate_token(&token, NOW),
        Err(JwtError::InvalidToken(TokenFault::IssuerMismatch))
    );
}

#[test]
fn missing_claim_is_malformed() {
    let mut fields = full_fields(USER, NOW + 10, ISSUER);
    fields.remove(1);
    let token = craft(&fields, SECRET);
    assert_eq!(
        service().validate_token(&token, NOW),
        Err(JwtError::InvalidToken(TokenFault::Malformed))
    );

    let mut fields = full_fields(USER, NOW + 10, ISSUER);
    fields[2] = ("role", Value::from(7));
    let token = craft(&fields, SECRET);
    assert_eq!(
        service().validate_token(&token, NOW),
        Err(JwtError::InvalidToken(TokenFault::Malformed))
    );

    let mut fields = full_fields(USER, NOW + 10, ISSUER);
    fields.remove(3);
    let token = craft(&fields, SECRET);
    assert_eq!(
        service().validate_token(&token, NOW),
        Err(JwtError::InvalidToken(TokenFault::Malformed))
    );
}

#[test]
fn crafted_token_with_all_claims_is_valid() {
    let token = craft(&full_fields("anything", NOW, ISSUER), SECRET);
    let claims = service().validate_token(&token, NOW).unwrap();
    assert_eq!(claims.sub, "anything");
    assert_eq!(claims.exp, NOW);
    assert_eq!(service().extract_role(&token, NOW).unwrap(), "user");
    assert_eq!(
        service().extract_user_id(&token, NOW),
        Err(JwtError::InvalidToken(TokenFault::InvalidSubject))
    );
    assert_eq!(
        service().refresh_token(&token, "user", NOW),
        Err(JwtError::InvalidToken(TokenFault::InvalidSubject))
    );
}

#[test]
fn check_claims_on_given_payloads() {
    let raw = |exp: Option<i64>, iss: &str, email: Option<&str>| RawClaims {
        sub: Some("s".to_string()),
        email: email.map(|e| e.to_string()),
        role: Some("r".to_string()),
        exp,
        iat: Some(5),
        iss: Some(iss.to_string()),
    };
    assert_eq!(
        JwtService::check_claims(Ok(raw(Some(100), ISSUER, Some("e"))), 100),
        Ok(Claims {
            sub: "s".to_string(),
            email: "e".to_string(),
            role: "r".to_string(),
            exp: 100,
            iat: 5,
            iss: ISSUER.to_string(),
        })
    );
    assert_eq!(
        JwtService::check_claims(Ok(raw(Some(100), ISSUER, Some("e"))), 101),
        Err(JwtError::TokenExpired)
    );
    assert_eq!(
        JwtService::check_claims(Ok(raw(Some(100), "other", Some("e"))), 101),
        Err(JwtError::InvalidToken(TokenFault::IssuerMismatch))
    );
    assert_eq!(
        JwtService::check_claims(Ok(raw(Some(100), "other", None)), 101),
        Err(JwtError::InvalidToken(TokenFault::Malformed))
    );
    assert_eq!(
        JwtService::check_claims(Ok(raw(None, ISSUER, Some("e"))), 0),
        Err(JwtError::InvalidToken(TokenFault::Malformed))
    );
    assert_eq!(
        JwtService::check_claims(Err(TokenFault::InvalidSignature), 0),
        Err(JwtError::InvalidToken(TokenFault::InvalidSignature))
    );
}

#[test]
fn refresh_keeps_subject_and_email_and_extends_expiry() {
    let old_token = service().generate_token(user_id(), "test@example.com", "user", NOW).unwrap();
    let old = service().validate_token(&old_token, NOW + 60).unwrap();

    let new_token = service().refresh_token(&old_token, "admin", NOW + 60).unwrap();
    assert_ne!(new_token, old_token);
    let new = service().validate_token(&new_token, NOW + 60).unwrap();
    assert_eq!(new.sub, old.sub);
    assert_eq!(new.email, old.email);
    assert_eq!(new.role, "admin");
    assert_eq!(new.iat, NOW + 60);
    assert_eq!(new.exp, NOW + 60 + 24 * 3600);
    assert!(new.exp > old.exp);
    assert_eq!(new.iss, ISSUER);
}

#[test]
fn refresh_in_the_second_of_issue_keeps_expiry() {
    let old_token = service().generate_token(user_id(), "test@example.com", "user", NOW).unwrap();
    let new_token = service().refresh_token(&old_token, "user", NOW).unwrap();
    let new = service().validate_token(&new_token, NOW).unwrap();
    assert_eq!(new.exp, NOW + 24 * 3600);
}

#[test]
fn refresh_keeps_subject_text_as_it_is() {
    let upper = USER.to_uppercase();
    let token = craft(&full_fields(&upper, NOW + 10, ISSUER), SECRET);
    assert_eq!(service().extract_user_id(&token, NOW), Ok(user_id()));
    let refreshed = service().refresh_token(&token, "user", NOW).unwrap();
    assert_eq!(service().validate_token(&refreshed, NOW).unwrap().sub, upper);
}

#[test]
fn refresh_of_unusable_token_fails() {
    let token = service().generate_token(user_id(), "test@example.com", "user", NOW).unwrap();
    assert_eq!(
        service().refresh_token(&token, "user", NOW + 24 * 3600 + 1),
        Err(JwtError::TokenExpired)
    );
    assert_eq!(
        JwtService::new("x".to_string(), 24).refresh_token(&token, "user", NOW),
        Err(JwtError::InvalidToken(TokenFault::InvalidSignature))
    );
}

#[test]
fn lifetime_follows_configuration() {
    let short = JwtService::new(SECRET.to_string(), 1);
    assert_eq!(short.expires_at(NOW), NOW + 3600);
    let token = short.generate_token(user_id(), "a@b", "user", NOW).unwrap();
    assert_eq!(short.validate_token(&token, NOW).unwrap().exp, NOW + 3600);

    let past = JwtService::new(SECRET.to_string(), -1);
    let token = past.generate_token(user_id(), "a@b", "user", NOW).unwrap();
    assert_eq!(past.validate_token(&token, NOW), Err(JwtError::TokenExpired));
    assert!(past.validate_token(&token, NOW - 3600).is_ok());
}

#[test]
fn user_id_text_round_trip() {
    assert_eq!(JwtService::user_id_text(user_id()), USER);
    assert_eq!(JwtService::user_id_text(0), "00000000-0000-0000-0000-000000000000");
    assert_eq!(JwtService::parse_user_id(USER), Some(user_id()));
    assert_eq!(JwtService::parse_user_id("550e8400e29b41d4a716446655440000"), Some(user_id()));
    assert_eq!(JwtService::parse_user_id("not-a-uuid"), None);
    assert_eq!(JwtService::parse_user_id(""), None);
    let claims = Claims {
        sub: USER.to_string(),
        email: String::new(),
        role: String::new(),
        exp: 0,
        iat: 0,
        iss: String::new(),
    };
    assert_eq!(JwtService::subject_id(&claims), Ok(user_id()));
}

#[test]
fn secret_must_be_configured() {
    assert_eq!(JwtService::get_secret(None), Err(JwtError::MissingSecret));
    assert_eq!(JwtService::get_secret(Some("s3cret".to_string())), Ok("s3cret".to_string()));
}

#[test]
fn token_verify_names_claims_and_user() {
    let token = service().generate_token(user_id(), "test@example.com", "user", NOW).unwrap();
    let request = TokenRequest { token };
    let (claims, id) = token_verify(&service(), &request, NOW).unwrap();
    assert_eq!(id, user_id());
    assert_eq!(claims.email, "test@example.com");

    assert_eq!(
        token_verify(&service(), &request, NOW + 24 * 3600 + 1),
        Err(AuthError::TokenExpired)
    );
    assert_eq!(
        token_verify(&JwtService::new("x".to_string(), 1), &request, NOW),
        Err(AuthError::TokenInvalid)
    );
    let odd = TokenRequest { token: craft(&full_fields("nobody", NOW, ISSUER), SECRET) };
    assert_eq!(token_verify(&service(), &odd, NOW), Err(AuthError::TokenInvalid));
}

#[test]
fn token_info_reports_stored_user() {
    let claims = Claims {
        sub: USER.to_string(),
        email: "old@example.com".to_string(),
        role: "admin".to_string(),
        exp: 900,
        iat: 100,
        iss: ISSUER.to_string(),
    };
    let user =
        Identity { id: user_id(), email: "new@example.com".to_string(), name: "Test".to_string() };
    assert_eq!(
        token_info(&claims, Some(user.clone()), None),
        Ok(TokenInfo {
            valid: true,
            user_id: user_id(),
            email: "new@example.com".to_string(),
            name: "Test".to_string(),
            role: "user".to_string(),
            expires_at: 900,
            issued_at: 100,
        })
    );
    assert_eq!(
        token_info(&claims, Some(user), Some("super_admin".to_string())).unwrap().role,
        "super_admin"
    );
    assert_eq!(token_info(&claims, None, Some("admin".to_string())), Err(AuthError::UserNotFound));
}

#[test]
fn token_refresh_uses_resolved_role() {
    let token = service().generate_token(user_id(), "test@example.com", "admin", NOW).unwrap();
    let request = TokenRequest { token };
    let user =
        Identity { id: user_id(), email: "test@example.com".to_string(), name: "Test".to_string() };

    let fresh = token_refresh(&service(), &request, Some(user.clone()), None, NOW + 5).unwrap();
    assert_eq!(fresh.expires_at, NOW + 5 + 24 * 3600);
    let claims = service().validate_token(&fresh.token, NOW + 5).unwrap();
    assert_eq!(claims.role, "user");
    assert_eq!(claims.sub, USER);
    assert_eq!(claims.email, "test@example.com");
    assert_eq!(claims.exp, fresh.expires_at);

    assert_eq!(
        token_refresh(&service(), &request, None, None, NOW + 5),
        Err(AuthError::UserNotFound)
    );
    assert_eq!(
        token_refresh(&service(), &request, Some(user), None, NOW + 24 * 3600 + 1),
        Err(AuthError::TokenExpired)
    );
}

#[test]
fn token_errors_as_request_errors() {
    assert_eq!(
        AuthError::of_token_error(JwtError::InvalidToken(TokenFault::Malformed)),
        AuthError::TokenInvalid
    );
    assert_eq!(
        AuthError::of_token_error(JwtError::InvalidToken(TokenFault::InvalidSubject)),
        AuthError::TokenInvalid
    );
    assert_eq!(AuthError::of_token_error(JwtError::TokenExpired), AuthError::TokenExpired);
    assert_eq!(AuthError::of_token_error(JwtError::MissingSecret), AuthError::MissingSecret);
}

#[test]
fn token_that_expires_before_the_epoch_is_malformed() {
    let service = JwtService::new(SECRET.to_string(), -1);
    let token = service.generate_token(user_id(), "a@b", "user", 0).unwrap();
    assert_eq!(token.split('.').count(), 3);
    assert_eq!(
        service.validate_token(&token, -7200),
        Err(JwtError::InvalidToken(TokenFault::Malformed))
    );
    let at_epoch = JwtService::new(SECRET.to_string(), 0);
    let token = at_epoch.generate_token(user_id(), "a@b", "user", 0).unwrap();
    assert_eq!(at_epoch.validate_token(&token, 0).unwrap().exp, 0);
    assert_eq!(at_epoch.validate_token(&token, 1), Err(JwtError::TokenExpired));
}
