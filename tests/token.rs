use glowmarkt::token::{
    check_token_expiry, is_valid, token_from_record, TokenError, TokenRecord, SAFETY_MARGIN_SECS,
};

#[test]
fn is_valid_boundary_is_exclusive() {
    let now = 1_700_000_000;
    assert!(!is_valid(now + 500, now, SAFETY_MARGIN_SECS));
    assert!(is_valid(now + 501, now, SAFETY_MARGIN_SECS));
    assert!(!is_valid(now + 499, now, SAFETY_MARGIN_SECS));
}

#[test]
fn is_valid_expired_token() {
    assert!(!is_valid(10, 20, 0));
    assert!(!is_valid(20, 20, 0));
}

#[test]
fn check_token_expiry_reads_exp() {
    let rec = TokenRecord { token: Some("abc".to_string()), exp: Some(2000) };
    assert_eq!(check_token_expiry(&rec, 1000), Ok(true));
    assert_eq!(check_token_expiry(&rec, 1500), Ok(false));
}

#[test]
fn check_token_expiry_missing_exp() {
    let rec = TokenRecord { token: Some("abc".to_string()), exp: None };
    assert_eq!(check_token_expiry(&rec, 1000), Err(TokenError::MissingExpiry));
}

#[test]
fn token_from_record_needs_both_fields() {
    let full = TokenRecord { token: Some("abc".to_string()), exp: Some(7) };
    let t = token_from_record(&full).unwrap();
    assert_eq!(t.token, "abc");
    assert_eq!(t.expiry, 7);
    assert!(token_from_record(&TokenRecord { token: None, exp: Some(7) }).is_none());
    assert!(token_from_record(&TokenRecord { token: Some("x".to_string()), exp: None }).is_none());
}
