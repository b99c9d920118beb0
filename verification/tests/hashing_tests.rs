use venomous_dashboard_auth::utils::password::{
    PasswordError, PasswordService, DEFAULT_COST, MAX_COST, MIN_COST, PASSWORD_CHARSET,
    TEMP_PASSWORD_CHARSET,
};

#[test]
fn cost_constants() {
    assert_eq!(MIN_COST, 4);
    assert_eq!(MAX_COST, 31);
    assert_eq!(DEFAULT_COST, 12);
    assert_eq!(DEFAULT_COST, bcrypt::DEFAULT_COST);
}

#[test]
fn hash_verifies_its_own_password_only() {
    for password in ["Passw0rd", "x", "pässwörd-ünïcode-1", "a password with spaces 123"] {
        let hash = PasswordService::hash_password(password, MIN_COST).unwrap();
        assert_eq!(hash.len(), 60);
        assert!(hash.starts_with("$2b$04$"));
        assert_eq!(PasswordService::verify_password(password, &hash).unwrap(), true);
        assert_eq!(PasswordService::verify_password("Passw0rd!", &hash).unwrap(), false);
    }
}

#[test]
fn hashing_twice_gives_two_hashes() {
    let first = PasswordService::hash_password("Passw0rd", MIN_COST).unwrap();
    let second = PasswordService::hash_password("Passw0rd", MIN_COST).unwrap();
    assert_ne!(first, second);
    assert!(PasswordService::verify_password("Passw0rd", &first).unwrap());
    assert!(PasswordService::verify_password("Passw0rd", &second).unwrap());
}

#[test]
fn known_hash_verifies() {
    let hash = "$2b$04$EGdrhbKUv8Oc9vGiXX0HQOxSg445d458Muh7DAHskb6QbtCvdxcie";
    assert_eq!(PasswordService::verify_password("correctbatteryhorsestapler", hash).unwrap(), true);
    assert_eq!(PasswordService::verify_password("wrong", hash).unwrap(), false);
}

#[test]
fn cost_out_of_range_is_hash_error() {
    assert!(matches!(
        PasswordService::hash_password("Passw0rd", 3),
        Err(PasswordError::HashError(_))
    ));
    assert!(matches!(
        PasswordService::hash_password("Passw0rd", 32),
        Err(PasswordError::HashError(_))
    ));
    assert!(matches!(PasswordService::hash_password("", 3), Err(PasswordError::InvalidPassword)));
}

#[test]
fn empty_arguments_are_invalid_password() {
    assert!(matches!(
        PasswordService::hash_password("", MIN_COST),
        Err(PasswordError::InvalidPassword)
    ));
    assert!(matches!(
        PasswordService::verify_password("", "hash"),
        Err(PasswordError::InvalidPassword)
    ));
    assert!(matches!(
        PasswordService::verify_password("password", ""),
        Err(PasswordError::InvalidPassword)
    ));
}

#[test]
fn unreadable_hash_is_hash_error() {
    assert!(matches!(
        PasswordService::verify_password("password", "hash"),
        Err(PasswordError::HashError(_))
    ));
    assert!(matches!(
        PasswordService::verify_password("password", "$2b$04$tooshort"),
        Err(PasswordError::HashError(_))
    ));
}

#[test]
fn verdict_passes_bcrypt_answer_on() {
    assert!(matches!(PasswordService::verdict(Ok(true)), Ok(true)));
    assert!(matches!(PasswordService::verdict(Ok(false)), Ok(false)));
    assert!(matches!(
        PasswordService::verdict(Err(bcrypt::BcryptError::CostNotAllowed(2))),
        Err(PasswordError::HashError(bcrypt::BcryptError::CostNotAllowed(2)))
    ));
}

#[test]
fn strength_rules() {
    assert!(PasswordService::validate_password_strength("Passw0rd").is_ok());
    assert!(PasswordService::validate_password_strength("abcdefg1").is_ok());
    assert!(matches!(
        PasswordService::validate_password_strength("abcdef1"),
        Err(PasswordError::InvalidPassword)
    ));
    assert!(PasswordService::validate_password_strength("1234567a").is_ok());
    assert!(PasswordService::validate_password_strength("!!!!!!!!a1").is_ok());
    assert!(PasswordService::validate_password_strength("!!!!!!!!!!").is_err());
    // Length counts bytes: four two-byte letters and a digit make nine bytes.
    assert!(PasswordService::validate_password_strength("éééé1").is_ok());
    assert!(PasswordService::validate_password_strength("ééé1").is_err());
    // Letters and digits of any script count.
    assert!(PasswordService::validate_password_strength("пароль٣٣").is_ok());
}

#[test]
fn random_passwords_draw_from_charset() {
    assert_eq!(PASSWORD_CHARSET.len(), 70);
    assert_eq!(TEMP_PASSWORD_CHARSET.len(), 62);
    for length in [0usize, 1, 12, 200] {
        let password = PasswordService::generate_random_password(length);
        assert_eq!(password.chars().count(), length);
        assert!(password.chars().all(|c| PASSWORD_CHARSET.contains(c)));
    }
    let temporary = PasswordService::generate_temp_password();
    assert_eq!(temporary.len(), 12);
    assert!(temporary.chars().all(|c| TEMP_PASSWORD_CHARSET.contains(c)));
    assert_ne!(temporary, PasswordService::generate_temp_password());
    let long = PasswordService::generate_random_password(400);
    assert!(long.chars().any(|c| c != long.chars().next().unwrap()));
}
