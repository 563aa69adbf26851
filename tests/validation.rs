use opentier_api::auth::{
    hash_password, password_check_outcome, validate_password_strength, verify_password, AuthError,
};
use opentier_api::validation::{check_email, validate_email, validate_password};

#[test]
fn password_test_password_validation() {
    assert!(validate_password_strength("password123").is_ok());
    assert!(validate_password_strength("short").is_err());
    assert!(validate_password_strength("nodigits").is_err());
}

#[test]
fn test_email_validation() {
    assert!(validate_email("test@example.com").is_ok());
    assert!(validate_email("user.name+tag@example.co.uk").is_ok());
    assert!(validate_email("invalid").is_err());
    assert!(validate_email("@example.com").is_err());
    assert!(validate_email("test@").is_err());
}

#[test]
fn validation_test_password_validation() {
    assert!(validate_password("Password123").is_ok());
    assert!(validate_password("short").is_err());
    assert!(validate_password("alllowercase123").is_err());
    assert!(validate_password("ALLUPPERCASE123").is_err());
    assert!(validate_password("NoNumbers").is_err());
}

#[test]
fn email_messages_name_the_problem() {
    assert_eq!(validate_email(""), Err("Email cannot be empty".to_string()));
    let long = format!("{}@example.com", "a".repeat(250));
    assert_eq!(validate_email(&long), Err("Email too long (max 255 characters)".to_string()));
    assert_eq!(validate_email("a@b"), Err("Invalid email format".to_string()));
    assert_eq!(validate_email("a@b.c"), Err("Invalid email format".to_string()));
    assert!(validate_email("a@b.cd").is_ok());
}

#[test]
fn email_verdict_follows_the_match_result() {
    assert_eq!(check_email("x@y.zz", Some(true)), Ok(()));
    assert_eq!(check_email("x@y.zz", Some(false)), Err("Invalid email format".to_string()));
    assert_eq!(check_email("x@y.zz", None), Err("Invalid email format".to_string()));
    assert_eq!(check_email("", Some(true)), Err("Email cannot be empty".to_string()));
}

#[test]
fn password_messages_and_bounds() {
    assert_eq!(
        validate_password("Ab1"),
        Err("Password must be at least 8 characters long".to_string())
    );
    let long = format!("Aa1{}", "x".repeat(126));
    assert_eq!(validate_password(&long), Err("Password too long (max 128 characters)".to_string()));
    let exactly = format!("Aa1{}", "x".repeat(125));
    assert!(validate_password(&exactly).is_ok());
    assert_eq!(
        validate_password("abcdefgh1"),
        Err("Password must contain uppercase, lowercase, and numbers".to_string())
    );
    assert!(validate_password("Äbcdefg1").is_ok());
}

#[test]
fn password_strength_counts_bytes_and_non_letters() {
    assert!(validate_password_strength("abcdefg!").is_ok());
    assert!(validate_password_strength("abcdefgh").is_err());
    assert!(validate_password_strength("abc 1").is_err());
    assert!(validate_password_strength("éééé1").is_ok());
}

#[test]
fn test_password_hashing() {
    let password = "test_password123";
    let hash = hash_password(password).unwrap();

    assert!(verify_password(password, &hash).unwrap());
    assert!(!verify_password("wrong_password", &hash).unwrap());
}

#[test]
fn unreadable_hash_is_an_error() {
    assert_eq!(verify_password("x", "not a hash"), Err(AuthError::HashError));
    assert_eq!(password_check_outcome(Some(true)), Ok(true));
    assert_eq!(password_check_outcome(Some(false)), Ok(false));
    assert_eq!(password_check_outcome(None), Err(AuthError::HashError));
}
