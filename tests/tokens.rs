use opentier_api::tokens::{generate_otp, generate_session_token, generate_token, otp_text, random_alphanumeric_text};

#[test]
fn test_token_generation() {
    let token1 = generate_token();
    let token2 = generate_token();

    assert_eq!(token1.len(), 32);
    assert_eq!(token2.len(), 32);
    assert_ne!(token1, token2);
    assert!(token1.chars().all(|c| c.is_alphanumeric()));
}

#[test]
fn test_session_token_generation() {
    let token = generate_session_token();
    assert_eq!(token.len(), 64);
    assert!(token.chars().all(|c| c.is_alphanumeric()));
}

#[test]
fn one_time_codes_have_six_digits() {
    assert_eq!(otp_text(0), "000000");
    assert_eq!(otp_text(42), "000042");
    assert_eq!(otp_text(123456), "123456");
    assert_eq!(otp_text(999999), "999999");
    for _ in 0..20 {
        let otp = generate_otp();
        assert_eq!(otp.len(), 6);
        assert!(otp.chars().all(|c| c.is_ascii_digit()));
    }
}

#[test]
fn random_texts_are_ascii_alphanumeric() {
    assert_eq!(random_alphanumeric_text(0), "");
    let t = random_alphanumeric_text(200);
    assert_eq!(t.len(), 200);
    assert!(t.chars().all(|c| c.is_ascii_alphanumeric()));
}
